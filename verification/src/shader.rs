//! The shaders of the catalogue and the names that select them.

use vstd::prelude::*;

verus! {

/// One shader of the catalogue.
#[derive(Clone, Copy, Debug, PartialEq, Eq, Structural)]
pub enum ShaderNameValue {
    Water,
    Goldcube,
    Circle,
    HypnoticCircle,
    Crystal,
    Stars,
    Smoke,
    SmokeRust,
    Snow,
}

/// Whether two strings hold the same characters.
fn same_chars(a: &str, b: &str) -> (r: bool)
    ensures
        r == (a@ == b@),
{
    let x = a.as_bytes();
    let y = b.as_bytes();
    proof {
        // Equal encodings decode to equal strings.
        vstd::utf8::encode_utf8_decode_utf8(a@);
        vstd::utf8::encode_utf8_decode_utf8(b@);
    }
    let n = x.len();
    if n != y.len() {
        return false;
    }
    let mut i: usize = 0;
    while i < n
        invariant
            x@ == vstd::utf8::encode_utf8(a@),
            y@ == vstd::utf8::encode_utf8(b@),
            n == x@.len(),
            n == y@.len(),
            i <= n,
            forall|j: int| 0 <= j < i ==> x@[j] == y@[j],
        decreases n - i,
    {
        if x[i] != y[i] {
            return false;
        }
        i += 1;
    }
    assert(x@ =~= y@);
    true
}

impl ShaderNameValue {
    /// The name that selects this shader, as a sequence of characters.
    pub open spec fn spec_name(self) -> Seq<char> {
        match self {
            ShaderNameValue::Water => "water"@,
            ShaderNameValue::Goldcube => "goldcube"@,
            ShaderNameValue::Circle => "circle"@,
            ShaderNameValue::HypnoticCircle => "hypnoticcircle"@,
            ShaderNameValue::Crystal => "crystal"@,
            ShaderNameValue::Stars => "stars"@,
            ShaderNameValue::Smoke => "smoke"@,
            ShaderNameValue::SmokeRust => "smokerust"@,
            ShaderNameValue::Snow => "snow"@,
        }
    }

    /// Every shader of the catalogue once, in the order in which they are
    /// listed to a user.
    pub open spec fn spec_value_variants() -> Seq<ShaderNameValue> {
        seq![
            ShaderNameValue::Water,
            ShaderNameValue::Goldcube,
            ShaderNameValue::Circle,
            ShaderNameValue::HypnoticCircle,
            ShaderNameValue::Crystal,
            ShaderNameValue::Stars,
            ShaderNameValue::Smoke,
            ShaderNameValue::SmokeRust,
            ShaderNameValue::Snow,
        ]
    }

    /// The name that selects this shader.
    pub fn name(&self) -> (r: &'static str)
        ensures
            r@ == self.spec_name(),
    {
        match self {
            ShaderNameValue::Water => "water",
            ShaderNameValue::Goldcube => "goldcube",
            ShaderNameValue::Circle => "circle",
            ShaderNameValue::HypnoticCircle => "hypnoticcircle",
            ShaderNameValue::Crystal => "crystal",
            ShaderNameValue::Stars => "stars",
            ShaderNameValue::Smoke => "smoke",
            ShaderNameValue::SmokeRust => "smokerust",
            ShaderNameValue::Snow => "snow",
        }
    }

    /// Every shader of the catalogue once, in listing order.
    pub fn value_variants() -> (r: [ShaderNameValue; 9])
        ensures
            r@ == Self::spec_value_variants(),
    {
        let r = [
            ShaderNameValue::Water,
            ShaderNameValue::Goldcube,
            ShaderNameValue::Circle,
            ShaderNameValue::HypnoticCircle,
            ShaderNameValue::Crystal,
            ShaderNameValue::Stars,
            ShaderNameValue::Smoke,
            ShaderNameValue::SmokeRust,
            ShaderNameValue::Snow,
        ];
        assert(r@ =~= Self::spec_value_variants());
        r
    }

    /// The shader that `name` selects. A name selects a shader only when it
    /// is that shader's name character for character; any other string
    /// selects none.
    pub fn from_name(name: &str) -> (r: Option<ShaderNameValue>)
        ensures
            match r {
                Some(v) => name@ == v.spec_name(),
                None => forall|v: ShaderNameValue| name@ != #[trigger] v.spec_name(),
            },
            forall|v: ShaderNameValue| name@ == #[trigger] v.spec_name() ==> r == Some(v),
    {
        let all = Self::value_variants();
        let mut i: usize = 0;
        while i < 9
            invariant
                i <= 9,
                all@ == Self::spec_value_variants(),
                forall|j: int| 0 <= j < i ==> name@ != #[trigger] all@[j].spec_name(),
            decreases 9 - i,
        {
            let v = all[i];
            if same_chars(name, v.name()) {
                proof {
                    assert forall|w: ShaderNameValue| name@ == #[trigger] w.spec_name() implies w
                        == v by {
                        names_select_one_shader(w, v);
                    }
                }
                return Some(v);
            }
            i += 1;
        }
        proof {
            assert forall|v: ShaderNameValue| name@ != #[trigger] v.spec_name() by {
                value_variants_hold_every_shader(v);
                let j = choose|j: int| 0 <= j < all@.len() && all@[j] == v;
                assert(name@ != all@[j].spec_name());
            }
        }
        None
    }
}

/// The listing holds every shader of the catalogue.
pub proof fn value_variants_hold_every_shader(v: ShaderNameValue)
    ensures
        ShaderNameValue::spec_value_variants().contains(v),
{
    let all = ShaderNameValue::spec_value_variants();
    match v {
        ShaderNameValue::Water => assert(all[0] == v),
        ShaderNameValue::Goldcube => assert(all[1] == v),
        ShaderNameValue::Circle => assert(all[2] == v),
        ShaderNameValue::HypnoticCircle => assert(all[3] == v),
        ShaderNameValue::Crystal => assert(all[4] == v),
        ShaderNameValue::Stars => assert(all[5] == v),
        ShaderNameValue::Smoke => assert(all[6] == v),
        ShaderNameValue::SmokeRust => assert(all[7] == v),
        ShaderNameValue::Snow => assert(all[8] == v),
    }
}

/// The listing holds no shader twice.
pub proof fn value_variants_are_distinct(i: int, j: int)
    requires
        0 <= i < ShaderNameValue::spec_value_variants().len(),
        0 <= j < ShaderNameValue::spec_value_variants().len(),
        i != j,
    ensures
        ShaderNameValue::spec_value_variants()[i] != ShaderNameValue::spec_value_variants()[j],
{
}

/// Two shaders with the same name are the same shader: a name never selects
/// more than one.
pub proof fn names_select_one_shader(a: ShaderNameValue, b: ShaderNameValue)
    requires
        a.spec_name() == b.spec_name(),
    ensures
        a == b,
{
    reveal_strlit("water");
    reveal_strlit("goldcube");
    reveal_strlit("circle");
    reveal_strlit("hypnoticcircle");
    reveal_strlit("crystal");
    reveal_strlit("stars");
    reveal_strlit("smoke");
    reveal_strlit("smokerust");
    reveal_strlit("snow");
    if a != b {
        let s = a.spec_name();
        let t = b.spec_name();
        assert(s.len() != t.len() || s[0] != t[0] || s[1] != t[1]);
    }
}

} // verus!

use vstd::prelude::*;
use vstd::string::StrSliceExecFns;

verus! {

/// The closed set of noise colorations. Exactly one is active per run,
/// chosen once at process start; the default is `Brownian`.
#[derive(Clone, Copy, PartialEq, Eq, Structural, Debug)]
pub enum NoiseValue {
    White,
    Gaussian,
    Triangular,
    Pink,
    Blue,
    Violet,
    Brownian,
    Velvet,
}

/// An ASCII upper-case letter folded to lower case; every other byte is
/// kept as it is.
pub open spec fn fold_byte(b: u8) -> u8 {
    if 65 <= b && b <= 90 {
        (b + 32) as u8
    } else {
        b
    }
}

/// Whether `c` lies in the ASCII range.
pub open spec fn is_ascii_char(c: char) -> bool {
    '\0' <= c <= '\u{7f}'
}

/// Whether `s` spells `name` when ASCII letter case is ignored. The
/// canonical variant names hold only ASCII lower-case letters, so a
/// sequence with any character outside the ASCII range matches none of
/// them.
pub open spec fn matches_name(s: Seq<char>, name: Seq<char>) -> bool {
    &&& s.len() == name.len()
    &&& forall|i: int|
        0 <= i < s.len() ==> is_ascii_char(#[trigger] s[i]) && fold_byte(s[i] as u8) == name[i] as u8
}

/// The variant selected by a textual configuration value, compared
/// case-insensitively against the canonical lower-case names.
pub open spec fn parse_spec(s: Seq<char>) -> Option<NoiseValue> {
    if matches_name(s, "white"@) {
        Some(NoiseValue::White)
    } else if matches_name(s, "gaussian"@) {
        Some(NoiseValue::Gaussian)
    } else if matches_name(s, "triangular"@) {
        Some(NoiseValue::Triangular)
    } else if matches_name(s, "pink"@) {
        Some(NoiseValue::Pink)
    } else if matches_name(s, "blue"@) {
        Some(NoiseValue::Blue)
    } else if matches_name(s, "violet"@) {
        Some(NoiseValue::Violet)
    } else if matches_name(s, "brownian"@) {
        Some(NoiseValue::Brownian)
    } else if matches_name(s, "velvet"@) {
        Some(NoiseValue::Velvet)
    } else {
        None
    }
}

fn fold_ascii(b: u8) -> (r: u8)
    ensures
        r == fold_byte(b),
{
    if 65 <= b && b <= 90 {
        b + 32
    } else {
        b
    }
}

/// Whether `s` spells `name` when ASCII letter case is ignored.
fn eq_ignore_ascii_case(s: &str, name: &str) -> (r: bool)
    requires
        name.is_ascii(),
    ensures
        r == matches_name(s@, name@),
{
    if !s.is_ascii() {
        proof {
            if matches_name(s@, name@) {
                assert(vstd::utf8::is_ascii_chars(s@)) by {
                    assert forall|i: int| 0 <= i < s@.len() implies '\0' <= #[trigger] s@[i]
                        <= '\u{7f}' by {
                        assert(is_ascii_char(s@[i]));
                    }
                }
            }
        }
        return false;
    }
    let n = s.unicode_len();
    if n != name.unicode_len() {
        return false;
    }
    let mut i: usize = 0;
    while i < n
        invariant
            i <= n,
            n == s@.len() == name@.len(),
            s.is_ascii(),
            name.is_ascii(),
            forall|j: int|
                0 <= j < i ==> is_ascii_char(#[trigger] s@[j]) && fold_byte(s@[j] as u8)
                    == name@[j] as u8,
        decreases n - i,
    {
        let b = fold_ascii(s.get_ascii(i));
        if b != name.get_ascii(i) {
            return false;
        }
        i += 1;
    }
    true
}

impl NoiseValue {
    /// The canonical lower-case name of this variant, the form it takes in
    /// external configuration.
    pub open spec fn name_spec(self) -> Seq<char> {
        match self {
            NoiseValue::White => "white"@,
            NoiseValue::Gaussian => "gaussian"@,
            NoiseValue::Triangular => "triangular"@,
            NoiseValue::Pink => "pink"@,
            NoiseValue::Blue => "blue"@,
            NoiseValue::Violet => "violet"@,
            NoiseValue::Brownian => "brownian"@,
            NoiseValue::Velvet => "velvet"@,
        }
    }

    /// The canonical lower-case name of this variant.
    pub fn name(&self) -> (r: &'static str)
        ensures
            r@ == self.name_spec(),
    {
        match self {
            NoiseValue::White => "white",
            NoiseValue::Gaussian => "gaussian",
            NoiseValue::Triangular => "triangular",
            NoiseValue::Pink => "pink",
            NoiseValue::Blue => "blue",
            NoiseValue::Violet => "violet",
            NoiseValue::Brownian => "brownian",
            NoiseValue::Velvet => "velvet",
        }
    }

    /// Select a variant by its textual name, case-insensitively. Exactly
    /// the eight canonical names are accepted, in any mixture of ASCII
    /// letter cases; anything else selects nothing.
    pub fn parse(name: &str) -> (r: Option<NoiseValue>)
        ensures
            r == parse_spec(name@),
    {
        proof {
            reveal_strlit("white");
            reveal_strlit("gaussian");
            reveal_strlit("triangular");
            reveal_strlit("pink");
            reveal_strlit("blue");
            reveal_strlit("violet");
            reveal_strlit("brownian");
            reveal_strlit("velvet");
        }
        if eq_ignore_ascii_case(name, "white") {
            Some(NoiseValue::White)
        } else if eq_ignore_ascii_case(name, "gaussian") {
            Some(NoiseValue::Gaussian)
        } else if eq_ignore_ascii_case(name, "triangular") {
            Some(NoiseValue::Triangular)
        } else if eq_ignore_ascii_case(name, "pink") {
            Some(NoiseValue::Pink)
        } else if eq_ignore_ascii_case(name, "blue") {
            Some(NoiseValue::Blue)
        } else if eq_ignore_ascii_case(name, "violet") {
            Some(NoiseValue::Violet)
        } else if eq_ignore_ascii_case(name, "brownian") {
            Some(NoiseValue::Brownian)
        } else if eq_ignore_ascii_case(name, "velvet") {
            Some(NoiseValue::Velvet)
        } else {
            None
        }
    }
}

impl Default for NoiseValue {
    /// The variant played when none is requested.
    fn default() -> (r: Self)
        ensures
            r == NoiseValue::Brownian,
    {
        NoiseValue::Brownian
    }
}

/// Case does not select: two names equal up to ASCII letter case select
/// the same variant, or both select none.
pub proof fn lemma_parse_case_insensitive(a: Seq<char>, b: Seq<char>)
    requires
        a.len() == b.len(),
        forall|i: int|
            0 <= i < a.len() ==> is_ascii_char(#[trigger] a[i]) && is_ascii_char(b[i]) && fold_byte(
                a[i] as u8,
            ) == fold_byte(b[i] as u8),
    ensures
        parse_spec(a) == parse_spec(b),
{
    assert forall|name: Seq<char>| #[trigger] matches_name(a, name) == matches_name(b, name) by {
        if matches_name(a, name) {
            assert forall|i: int| 0 <= i < b.len() implies is_ascii_char(#[trigger] b[i])
                && fold_byte(b[i] as u8) == name[i] as u8 by {
                assert(fold_byte(fold_byte(a[i] as u8)) == fold_byte(a[i] as u8));
            }
        }
        if matches_name(b, name) {
            assert forall|i: int| 0 <= i < a.len() implies is_ascii_char(#[trigger] a[i])
                && fold_byte(a[i] as u8) == name[i] as u8 by {
                assert(fold_byte(fold_byte(b[i] as u8)) == fold_byte(b[i] as u8));
            }
        }
    }
}

/// A canonical name matches itself: it holds only ASCII lower-case
/// letters, which folding keeps as they are.
proof fn lemma_name_matches_itself(n: Seq<char>)
    requires
        forall|i: int| 0 <= i < n.len() ==> 'a' <= #[trigger] n[i] <= 'z',
    ensures
        matches_name(n, n),
{
    assert forall|i: int| 0 <= i < n.len() implies is_ascii_char(#[trigger] n[i]) && fold_byte(
        n[i] as u8,
    ) == n[i] as u8 by {
        assert('a' <= n[i] <= 'z');
    }
}

/// Every canonical name selects its own variant when parsed back.
pub proof fn lemma_name_parses_back(v: NoiseValue)
    ensures
        parse_spec(v.name_spec()) == Some(v),
{
    reveal_strlit("white");
    reveal_strlit("gaussian");
    reveal_strlit("triangular");
    reveal_strlit("pink");
    reveal_strlit("blue");
    reveal_strlit("violet");
    reveal_strlit("brownian");
    reveal_strlit("velvet");
    assert forall|i: int| 0 <= i < "white"@.len() implies 'a' <= #[trigger] "white"@[i]
        <= 'z' by {}
    lemma_name_matches_itself("white"@);
    assert forall|i: int| 0 <= i < "gaussian"@.len() implies 'a' <= #[trigger] "gaussian"@[i]
        <= 'z' by {}
    lemma_name_matches_itself("gaussian"@);
    assert forall|i: int| 0 <= i < "triangular"@.len() implies 'a' <= #[trigger] "triangular"@[i]
        <= 'z' by {}
    lemma_name_matches_itself("triangular"@);
    assert forall|i: int| 0 <= i < "pink"@.len() implies 'a' <= #[trigger] "pink"@[i] <= 'z' by {}
    lemma_name_matches_itself("pink"@);
    assert forall|i: int| 0 <= i < "blue"@.len() implies 'a' <= #[trigger] "blue"@[i] <= 'z' by {}
    lemma_name_matches_itself("blue"@);
    assert forall|i: int| 0 <= i < "violet"@.len() implies 'a' <= #[trigger] "violet"@[i]
        <= 'z' by {}
    lemma_name_matches_itself("violet"@);
    assert forall|i: int| 0 <= i < "brownian"@.len() implies 'a' <= #[trigger] "brownian"@[i]
        <= 'z' by {}
    lemma_name_matches_itself("brownian"@);
    assert forall|i: int| 0 <= i < "velvet"@.len() implies 'a' <= #[trigger] "velvet"@[i]
        <= 'z' by {}
    lemma_name_matches_itself("velvet"@);
    assert(!matches_name("blue"@, "pink"@)) by {
        if matches_name("blue"@, "pink"@) {
            assert(fold_byte("blue"@[0] as u8) == "pink"@[0] as u8);
        }
    }
    assert(!matches_name("brownian"@, "gaussian"@)) by {
        if matches_name("brownian"@, "gaussian"@) {
            assert(fold_byte("brownian"@[0] as u8) == "gaussian"@[0] as u8);
        }
    }
    assert(!matches_name("velvet"@, "violet"@)) by {
        if matches_name("velvet"@, "violet"@) {
            assert(fold_byte("velvet"@[1] as u8) == "violet"@[1] as u8);
        }
    }
}

} // verus!

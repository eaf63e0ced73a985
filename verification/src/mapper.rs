//! Field mapper: pure, deterministic translation of human-readable category
//! strings into the backend's numeric codes. Matching is case-insensitive
//! (the input is lowercased before comparison) and every string has a defined
//! output: anything unrecognized falls back to `Unknown`, code 0.

use vstd::prelude::*;
use vstd::string::StrSliceExecFns;

verus! {

/// A municipality category, as a closed set of named variants.
#[derive(Clone, Copy, PartialEq, Eq, Structural, Debug)]
pub enum Municipality {
    Unknown,
    Mixco,
    Guatemala,
    Amatitlan,
    Chinautla,
}

/// A weather-condition category, as a closed set of named variants.
#[derive(Clone, Copy, PartialEq, Eq, Structural, Debug)]
pub enum Weather {
    Unknown,
    Sunny,
    Cloudy,
    Rainy,
    Foggy,
}

/// ASCII lowercasing of one character; everything else is left alone.
pub open spec fn lower_char(c: char) -> char {
    if 'A' <= c && c <= 'Z' {
        ((c as u8 + 32) as u8) as char
    } else {
        c
    }
}

/// ASCII lowercasing of a whole string.
pub open spec fn lower(s: Seq<char>) -> Seq<char> {
    s.map_values(|c: char| lower_char(c))
}

/// Which municipality a raw category string denotes, lowercasing first.
pub open spec fn municipality_of(s: Seq<char>) -> Municipality {
    if lower(s) == "mixco"@ {
        Municipality::Mixco
    } else if lower(s) == "guatemala"@ {
        Municipality::Guatemala
    } else if lower(s) == "amatitlan"@ {
        Municipality::Amatitlan
    } else if lower(s) == "chinautla"@ {
        Municipality::Chinautla
    } else {
        Municipality::Unknown
    }
}

/// Which weather condition a raw category string denotes, lowercasing first.
pub open spec fn weather_of(s: Seq<char>) -> Weather {
    if lower(s) == "sunny"@ {
        Weather::Sunny
    } else if lower(s) == "cloudy"@ {
        Weather::Cloudy
    } else if lower(s) == "rainy"@ {
        Weather::Rainy
    } else if lower(s) == "foggy"@ {
        Weather::Foggy
    } else {
        Weather::Unknown
    }
}

/// The backend wire code of a municipality; 0 means unrecognized.
pub open spec fn municipality_code(m: Municipality) -> i32 {
    match m {
        Municipality::Unknown => 0,
        Municipality::Mixco => 1,
        Municipality::Guatemala => 2,
        Municipality::Amatitlan => 3,
        Municipality::Chinautla => 4,
    }
}

/// The backend wire code of a weather condition; 0 means unrecognized.
pub open spec fn weather_code(w: Weather) -> i32 {
    match w {
        Weather::Unknown => 0,
        Weather::Sunny => 1,
        Weather::Cloudy => 2,
        Weather::Rainy => 3,
        Weather::Foggy => 4,
    }
}

/// Whether the ASCII lowercasing of `s` is exactly `kw`.
fn eq_lowered(s: &str, kw: &str) -> (r: bool)
    ensures
        r == (lower(s@) == kw@),
{
    let n = s.unicode_len();
    let m = kw.unicode_len();
    if n != m {
        proof {
            assert(lower(s@).len() == s@.len());
        }
        return false;
    }
    let mut i: usize = 0;
    while i < n
        invariant
            n == s@.len(),
            n == kw@.len(),
            i <= n,
            forall|j: int| 0 <= j < i ==> lower_char(s@[j]) == kw@[j],
        decreases n - i,
    {
        let c = s.get_char(i);
        let lc = if 'A' <= c && c <= 'Z' {
            (c as u8 + 32) as char
        } else {
            c
        };
        assert(lc == lower_char(s@[i as int]));
        if lc != kw.get_char(i) {
            proof {
                assert(lower(s@)[i as int] == lower_char(s@[i as int]));
            }
            return false;
        }
        i += 1;
    }
    proof {
        assert(lower(s@) =~= kw@);
    }
    true
}

/// Municipality denoted by a raw category string.
pub fn parse_municipality(s: &str) -> (m: Municipality)
    ensures
        m == municipality_of(s@),
{
    if eq_lowered(s, "mixco") {
        Municipality::Mixco
    } else if eq_lowered(s, "guatemala") {
        Municipality::Guatemala
    } else if eq_lowered(s, "amatitlan") {
        Municipality::Amatitlan
    } else if eq_lowered(s, "chinautla") {
        Municipality::Chinautla
    } else {
        Municipality::Unknown
    }
}

/// Weather condition denoted by a raw category string.
pub fn parse_weather(s: &str) -> (w: Weather)
    ensures
        w == weather_of(s@),
{
    if eq_lowered(s, "sunny") {
        Weather::Sunny
    } else if eq_lowered(s, "cloudy") {
        Weather::Cloudy
    } else if eq_lowered(s, "rainy") {
        Weather::Rainy
    } else if eq_lowered(s, "foggy") {
        Weather::Foggy
    } else {
        Weather::Unknown
    }
}

/// Backend wire code of a municipality variant.
pub fn municipality_to_code(m: Municipality) -> (code: i32)
    ensures
        code == municipality_code(m),
{
    match m {
        Municipality::Unknown => 0,
        Municipality::Mixco => 1,
        Municipality::Guatemala => 2,
        Municipality::Amatitlan => 3,
        Municipality::Chinautla => 4,
    }
}

/// Backend wire code of a weather variant.
pub fn weather_to_code(w: Weather) -> (code: i32)
    ensures
        code == weather_code(w),
{
    match w {
        Weather::Unknown => 0,
        Weather::Sunny => 1,
        Weather::Cloudy => 2,
        Weather::Rainy => 3,
        Weather::Foggy => 4,
    }
}

/// Numeric code of a municipality string: case-insensitive lookup, 0 when
/// the string is unrecognized.
pub fn map_municipality(municipality: &str) -> (code: i32)
    ensures
        code == municipality_code(municipality_of(municipality@)),
{
    municipality_to_code(parse_municipality(municipality))
}

/// Numeric code of a weather string: case-insensitive lookup, 0 when the
/// string is unrecognized.
pub fn map_weather(weather: &str) -> (code: i32)
    ensures
        code == weather_code(weather_of(weather@)),
{
    weather_to_code(parse_weather(weather))
}

/// Lowercasing one character is idempotent: a character that has already
/// been lowered is left alone by a second pass.
pub proof fn lemma_lower_char_idempotent(c: char)
    ensures
        lower_char(lower_char(c)) == lower_char(c),
{
}

/// Lowercasing a string is idempotent.
pub proof fn lemma_lower_idempotent(s: Seq<char>)
    ensures
        lower(lower(s)) == lower(s),
{
    assert forall|j: int| 0 <= j < s.len() implies lower(lower(s))[j] == lower(s)[j] by {
        lemma_lower_char_idempotent(s[j]);
    }
    assert(lower(lower(s)) =~= lower(s));
}

/// Category lookup is case-insensitive: a string and its lowercased form
/// denote the same municipality and the same weather condition.
pub proof fn lemma_mapping_case_insensitive(s: Seq<char>)
    ensures
        municipality_of(lower(s)) == municipality_of(s),
        weather_of(lower(s)) == weather_of(s),
{
    lemma_lower_idempotent(s);
}

/// Every recognized municipality keyword, in any letter case, gets its own
/// non-zero code, and every other string gets code 0.
pub proof fn lemma_municipality_mapping(s: Seq<char>)
    ensures
        lower(s) == "mixco"@ ==> municipality_code(municipality_of(s)) == 1,
        lower(s) == "guatemala"@ ==> municipality_code(municipality_of(s)) == 2,
        lower(s) == "amatitlan"@ ==> municipality_code(municipality_of(s)) == 3,
        lower(s) == "chinautla"@ ==> municipality_code(municipality_of(s)) == 4,
        lower(s) != "mixco"@ && lower(s) != "guatemala"@ && lower(s) != "amatitlan"@
            && lower(s) != "chinautla"@ ==> municipality_code(municipality_of(s)) == 0,
{
    reveal_strlit("mixco");
    reveal_strlit("guatemala");
    reveal_strlit("amatitlan");
    reveal_strlit("chinautla");
    assert("mixco"@.len() == 5);
    assert("guatemala"@.len() == 9);
    assert("amatitlan"@.len() == 9);
    assert("chinautla"@.len() == 9);
    assert("guatemala"@[0] == 'g' && "amatitlan"@[0] == 'a' && "chinautla"@[0] == 'c');
}

/// Every recognized weather keyword, in any letter case, gets its own
/// non-zero code, and every other string gets code 0.
pub proof fn lemma_weather_mapping(s: Seq<char>)
    ensures
        lower(s) == "sunny"@ ==> weather_code(weather_of(s)) == 1,
        lower(s) == "cloudy"@ ==> weather_code(weather_of(s)) == 2,
        lower(s) == "rainy"@ ==> weather_code(weather_of(s)) == 3,
        lower(s) == "foggy"@ ==> weather_code(weather_of(s)) == 4,
        lower(s) != "sunny"@ && lower(s) != "cloudy"@ && lower(s) != "rainy"@
            && lower(s) != "foggy"@ ==> weather_code(weather_of(s)) == 0,
{
    reveal_strlit("sunny");
    reveal_strlit("cloudy");
    reveal_strlit("rainy");
    reveal_strlit("foggy");
    assert("sunny"@.len() == 5);
    assert("cloudy"@.len() == 6);
    assert("rainy"@.len() == 5);
    assert("foggy"@.len() == 5);
    assert("sunny"@[0] == 's' && "rainy"@[0] == 'r' && "foggy"@[0] == 'f');
}

/// The all-caps spelling of a municipality keyword denotes the same category
/// as the lowercase spelling.
pub proof fn lemma_mixco_any_case()
    ensures
        municipality_of("MIXCO"@) == municipality_of("mixco"@),
        municipality_of("MIXCO"@) == Municipality::Mixco,
{
    reveal_strlit("MIXCO");
    reveal_strlit("mixco");
    assert(lower("MIXCO"@) =~= "mixco"@);
    assert(lower("mixco"@) =~= "mixco"@);
}

} // verus!

//! Musical key names and their Camelot-wheel codes (A = minor, B = major).
use vstd::prelude::*;

verus! {

/// Key profile used by key estimation.
#[derive(Clone, Copy, Debug, PartialEq, Eq, Structural)]
pub enum KeyProfile {
    /// The classic Krumhansl–Schmuckler profile.
    KrumhanslSchmuckler,
    /// A profile tuned for electronic music: stronger tonic triad and natural
    /// minor features.
    EdmTriadV1,
}

/// Name of the key on pitch class `i` (0 = C), major or minor.
pub open spec fn spec_key_name(i: int, minor: bool) -> Seq<char> {
    if !minor {
        if i == 0 { "C"@ } else if i == 1 { "C#"@ } else if i == 2 { "D"@ } else if i == 3 { "D#"@ }
        else if i == 4 { "E"@ } else if i == 5 { "F"@ } else if i == 6 { "F#"@ } else if i == 7 { "G"@ }
        else if i == 8 { "G#"@ } else if i == 9 { "A"@ } else if i == 10 { "A#"@ } else { "B"@ }
    } else {
        if i == 0 { "Cm"@ } else if i == 1 { "C#m"@ } else if i == 2 { "Dm"@ } else if i == 3 { "D#m"@ }
        else if i == 4 { "Em"@ } else if i == 5 { "Fm"@ } else if i == 6 { "F#m"@ } else if i == 7 { "Gm"@ }
        else if i == 8 { "G#m"@ } else if i == 9 { "Am"@ } else if i == 10 { "A#m"@ } else { "Bm"@ }
    }
}

/// Camelot code of the key on pitch class `i`, major or minor.
pub open spec fn spec_camelot_code(i: int, minor: bool) -> Seq<char> {
    if !minor {
        if i == 0 { "8B"@ } else if i == 1 { "3B"@ } else if i == 2 { "10B"@ } else if i == 3 { "5B"@ }
        else if i == 4 { "12B"@ } else if i == 5 { "7B"@ } else if i == 6 { "2B"@ } else if i == 7 { "9B"@ }
        else if i == 8 { "4B"@ } else if i == 9 { "11B"@ } else if i == 10 { "6B"@ } else { "1B"@ }
    } else {
        if i == 0 { "5A"@ } else if i == 1 { "12A"@ } else if i == 2 { "7A"@ } else if i == 3 { "2A"@ }
        else if i == 4 { "9A"@ } else if i == 5 { "4A"@ } else if i == 6 { "11A"@ } else if i == 7 { "6A"@ }
        else if i == 8 { "1A"@ } else if i == 9 { "8A"@ } else if i == 10 { "3A"@ } else { "10A"@ }
    }
}

/// Number on the Camelot wheel: one step per fifth, C major at 8B and
/// C minor at 5A, counted 1 to 12.
pub open spec fn spec_camelot_num(i: int, minor: bool) -> int {
    let r = ((if minor { 5int } else { 8int }) + 7 * i) % 12;
    if r == 0 { 12 } else { r }
}

/// The first pitch class from `i` on whose major or minor name is `key`
/// (major checked first), with its mode.
pub open spec fn key_index_from(key: Seq<char>, i: int) -> Option<(int, bool)>
    decreases 12 - i,
{
    if i >= 12 || i < 0 {
        None
    } else if key == spec_key_name(i, false) {
        Some((i, false))
    } else if key == spec_key_name(i, true) {
        Some((i, true))
    } else {
        key_index_from(key, i + 1)
    }
}

pub open spec fn spec_camelot(key: Seq<char>) -> Option<Seq<char>> {
    match key_index_from(key, 0) {
        Some((i, m)) => Some(spec_camelot_code(i, m)),
        None => None,
    }
}

pub open spec fn spec_camelot_number(key: Seq<char>) -> Option<int> {
    match key_index_from(key, 0) {
        Some((i, m)) => Some(spec_camelot_num(i, m)),
        None => None,
    }
}

fn key_name(i: usize, minor: bool) -> (r: &'static str)
    requires
        i < 12,
    ensures
        r@ == spec_key_name(i as int, minor),
{
    if !minor {
        match i {
            0 => "C", 1 => "C#", 2 => "D", 3 => "D#", 4 => "E", 5 => "F",
            6 => "F#", 7 => "G", 8 => "G#", 9 => "A", 10 => "A#", _ => "B",
        }
    } else {
        match i {
            0 => "Cm", 1 => "C#m", 2 => "Dm", 3 => "D#m", 4 => "Em", 5 => "Fm",
            6 => "F#m", 7 => "Gm", 8 => "G#m", 9 => "Am", 10 => "A#m", _ => "Bm",
        }
    }
}

fn camelot_code(i: usize, minor: bool) -> (r: &'static str)
    requires
        i < 12,
    ensures
        r@ == spec_camelot_code(i as int, minor),
{
    if !minor {
        match i {
            0 => "8B", 1 => "3B", 2 => "10B", 3 => "5B", 4 => "12B", 5 => "7B",
            6 => "2B", 7 => "9B", 8 => "4B", 9 => "11B", 10 => "6B", _ => "1B",
        }
    } else {
        match i {
            0 => "5A", 1 => "12A", 2 => "7A", 3 => "2A", 4 => "9A", 5 => "4A",
            6 => "11A", 7 => "6A", 8 => "1A", 9 => "8A", 10 => "3A", _ => "10A",
        }
    }
}

/// Whether two strings hold the same characters.
pub fn str_eq(a: &str, b: &str) -> (r: bool)
    ensures
        r == (a@ == b@),
{
    let n = a.unicode_len();
    if n != b.unicode_len() {
        return false;
    }
    let mut i: usize = 0;
    while i < n
        invariant
            n == a@.len() == b@.len(),
            i <= n,
            forall|j: int| 0 <= j < i ==> a@[j] == b@[j],
        decreases n - i,
    {
        if a.get_char(i) != b.get_char(i) {
            return false;
        }
        i = i + 1;
    }
    assert(a@ =~= b@);
    true
}

/// Pitch class and mode of a key name.
fn key_index(key: &str) -> (r: Option<(usize, bool)>)
    ensures
        r matches Some(p) ==> p.0 < 12 && key_index_from(key@, 0) == Some((p.0 as int, p.1)),
        r is None ==> key_index_from(key@, 0) is None,
{
    let mut i: usize = 0;
    while i < 12
        invariant
            i <= 12,
            key_index_from(key@, 0) == key_index_from(key@, i as int),
        decreases 12 - i,
    {
        if str_eq(key, key_name(i, false)) {
            return Some((i, false));
        }
        if str_eq(key, key_name(i, true)) {
            return Some((i, true));
        }
        i = i + 1;
    }
    None
}

/// The Camelot code of a key name such as "C#m", or `None` for a name that is
/// not one of the 24 keys.
pub fn camelot_from_key_name(key: &str) -> (r: Option<&'static str>)
    ensures
        r matches Some(c) ==> spec_camelot(key@) == Some(c@),
        r is None ==> spec_camelot(key@) is None,
{
    match key_index(key) {
        Some((i, m)) => Some(camelot_code(i, m)),
        None => None,
    }
}

/// The number (1 to 12) of a key's Camelot code.
pub fn camelot_number(key: &str) -> (r: Option<u8>)
    ensures
        r matches Some(n) ==> spec_camelot_number(key@) == Some(n as int),
        r is None ==> spec_camelot_number(key@) is None,
{
    match key_index(key) {
        Some((i, m)) => {
            let base: usize = if m {
                5
            } else {
                8
            };
            let x: usize = (base + 7 * i) % 12;
            if x == 0 {
                Some(12)
            } else {
                Some(x as u8)
            }
        },
        None => None,
    }
}

/// Whether two key names sit at the same number of the Camelot wheel (a key
/// and its relative major or minor).
pub fn same_camelot_number(a: &str, b: &str) -> (r: bool)
    ensures
        r == (spec_camelot_number(a@) is Some && spec_camelot_number(a@) == spec_camelot_number(b@)),
{
    match (camelot_number(a), camelot_number(b)) {
        (Some(x), Some(y)) => x == y,
        _ => false,
    }
}

} // verus!

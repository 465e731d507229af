//! The persisted UI state: a free-text label, a numeric value, and the
//! image URL. The numeric value is kept in tenths of a unit, so that the
//! slider default of 2.7 units is the integer 27 and the increment button
//! adds exactly one unit, that is 10 tenths.
//!
//! `save` renders the persisted fields (label and value; the URL is not
//! persisted) as a single string: the decimal digits of the value, a
//! newline, then the label verbatim. `load` inverts this and falls back
//! to the defaults on any malformed input.

use crate::codec::all_digits;
use crate::codec::dec_digits;
use crate::codec::digits_string;
use crate::codec::is_digit;
use crate::codec::lemma_dec_digits_are_digits;
use crate::codec::lemma_parse_dec_digits;
use crate::codec::parse_digits;
use crate::codec::parsed_value;
use vstd::prelude::*;
use vstd::string::StrSliceExecFns;
use vstd::string::StringExecFns;

verus! {

/// The default numeric value, in tenths of a unit (2.7 units).
pub const DEFAULT_VALUE_TENTHS: u64 = 27;

/// How much the increment control adds, in tenths of a unit (1.0 unit).
pub const INCREMENT_TENTHS: u64 = 10;

#[derive(Debug, Clone, PartialEq, Eq)]
pub struct AppState {
    /// Free text typed in the side panel.
    pub label: String,
    /// The slider value, in tenths of a unit.
    pub value_tenths: u64,
    /// The URL last typed into the address field; not persisted.
    pub url: String,
}

/// The state a fresh start yields: label "Hello World!", value 2.7, empty URL.
pub open spec fn is_default_state(s: AppState) -> bool {
    &&& s.label@ == "Hello World!"@
    &&& s.value_tenths == DEFAULT_VALUE_TENTHS
    &&& s.url@ == Seq::<char>::empty()
}

impl Default for AppState {
    fn default() -> (s: Self)
        ensures
            is_default_state(s),
    {
        AppState {
            label: String::from_str("Hello World!"),
            value_tenths: DEFAULT_VALUE_TENTHS,
            url: String::new(),
        }
    }
}

impl AppState {
    /// Adds exactly one unit (10 tenths) to the value. There is no upper
    /// bound beyond the machine limit; in particular the value may grow
    /// past the slider's nominal range.
    pub fn increment_value(&mut self)
        requires
            old(self).value_tenths + INCREMENT_TENTHS <= u64::MAX,
        ensures
            final(self).value_tenths == old(self).value_tenths + INCREMENT_TENTHS,
            final(self).label == old(self).label,
            final(self).url == old(self).url,
    {
        self.value_tenths = self.value_tenths + INCREMENT_TENTHS;
    }
}

/// The stored form of a state: the value's decimal digits, `'\n'`, the label.
pub open spec fn stored_form(s: AppState) -> Seq<char> {
    dec_digits(s.value_tenths as nat) + seq!['\n'] + s.label@
}

/// True when position `k` separates a digit prefix from the label.
/// There is at most one such position (`lemma_sep_unique`).
pub open spec fn is_sep(s: Seq<char>, k: int) -> bool {
    &&& 0 <= k < s.len()
    &&& s[k] == '\n'
    &&& all_digits(s.subrange(0, k))
}

/// True when a stored string decodes to a state: it has a separator and
/// the digit prefix denotes a value that fits in a `u64`.
pub open spec fn decodable(s: Seq<char>) -> bool {
    exists|k: int| is_sep(s, k) && parsed_value(s.subrange(0, k)) <= u64::MAX
}

/// The unique separator position of a decodable string.
pub open spec fn sep_index(s: Seq<char>) -> int {
    choose|k: int| is_sep(s, k)
}

/// The label a decodable stored string carries.
pub open spec fn decoded_label(s: Seq<char>) -> Seq<char> {
    s.subrange(sep_index(s) + 1, s.len() as int)
}

/// The value (in tenths) a decodable stored string carries.
pub open spec fn decoded_value(s: Seq<char>) -> nat {
    parsed_value(s.subrange(0, sep_index(s)))
}

/// What `load` yields, as (label, value in tenths): the decoded fields
/// when the input is present and well formed, the defaults otherwise.
pub open spec fn spec_load(stored: Option<Seq<char>>) -> (Seq<char>, u64) {
    match stored {
        Option::None => ("Hello World!"@, DEFAULT_VALUE_TENTHS),
        Option::Some(s) => if decodable(s) {
            (decoded_label(s), decoded_value(s) as u64)
        } else {
            ("Hello World!"@, DEFAULT_VALUE_TENTHS)
        },
    }
}

/// A string has at most one separator position: everything before the
/// separator is a digit, and a newline is not a digit.
pub proof fn lemma_sep_unique(s: Seq<char>, k1: int, k2: int)
    requires
        is_sep(s, k1),
        is_sep(s, k2),
    ensures
        k1 == k2,
{
    if k1 < k2 {
        assert(is_digit(s.subrange(0, k2)[k1]));
    }
    if k2 < k1 {
        assert(is_digit(s.subrange(0, k1)[k2]));
    }
}

/// Renders the persisted fields of `state` as a single string.
pub fn save(state: &AppState) -> (out: String)
    ensures
        out@ == stored_form(*state),
{
    proof {
        reveal_strlit("\n");
    }
    let mut out = digits_string(state.value_tenths);
    out.append("\n");
    out.append(state.label.as_str());
    assert(out@ =~= stored_form(*state));
    out
}

/// Finds the separator position of `s`, if it has one.
fn find_sep(s: &str) -> (r: Option<usize>)
    ensures
        match r {
            Some(k) => is_sep(s@, k as int),
            None => forall|k: int| !is_sep(s@, k),
        },
{
    let n: usize = s.unicode_len();
    let mut i: usize = 0;
    while i < n
        invariant
            i <= n,
            n == s@.len(),
            all_digits(s@.subrange(0, i as int)),
        decreases n - i,
    {
        let c = s.get_char(i);
        let code: u32 = c as u32;
        if 48 <= code && code <= 57 {
            proof {
                assert forall|j: int| 0 <= j < i + 1 implies is_digit(
                    #[trigger] s@.subrange(0, i + 1)[j],
                ) by {
                    if j < i {
                        assert(is_digit(s@.subrange(0, i as int)[j]));
                    }
                }
            }
            i = i + 1;
        } else if c == '\n' {
            return Some(i);
        } else {
            proof {
                assert forall|k: int| !is_sep(s@, k) by {
                    if is_sep(s@, k) {
                        if k <= i {
                            assert(is_digit(s@.subrange(0, i as int)[k]));
                        } else {
                            assert(is_digit(s@.subrange(0, k)[i as int]));
                        }
                    }
                }
            }
            return None;
        }
    }
    proof {
        assert forall|k: int| !is_sep(s@, k) by {
            if is_sep(s@, k) {
                assert(is_digit(s@.subrange(0, i as int)[k]));
            }
        }
    }
    None
}

/// Rebuilds the state from what the storage held, or yields the defaults
/// when nothing was stored or the stored text is malformed. The URL is
/// never persisted, so it is always empty after a load.
pub fn load(stored: Option<String>) -> (s: AppState)
    ensures
        ({
            let loaded = spec_load(
                match stored {
                    Option::None => Option::None,
                    Option::Some(t) => Option::Some(t@),
                },
            );
            &&& s.label@ == loaded.0
            &&& s.value_tenths == loaded.1
            &&& s.url@ == Seq::<char>::empty()
        }),
{
    match stored {
        Option::None => AppState::default(),
        Option::Some(text) => {
            let t = text.as_str();
            match find_sep(t) {
                Option::None => AppState::default(),
                Option::Some(k) => {
                    proof {
                        if decodable(t@) {
                            let k2 = choose|j: int|
                                is_sep(t@, j) && parsed_value(t@.subrange(0, j)) <= u64::MAX;
                            lemma_sep_unique(t@, k as int, k2);
                        }
                    }
                    match parse_digits(t, k) {
                        Option::None => {
                            assert(!decodable(t@));
                            AppState::default()
                        },
                        Option::Some(v) => {
                            proof {
                                assert(decodable(t@));
                                lemma_sep_unique(t@, k as int, sep_index(t@));
                            }
                            let n: usize = t.unicode_len();
                            let label = t.substring_char(k + 1, n).to_owned();
                            AppState { label, value_tenths: v, url: String::new() }
                        },
                    }
                },
            }
        },
    }
}

/// Saving a state and loading the result yields the state back, for any
/// state whose URL field is empty (the URL is deliberately not persisted,
/// so it is the one field a round trip does not carry).
pub proof fn lemma_save_load_round_trip(s: AppState)
    requires
        s.url@ == Seq::<char>::empty(),
    ensures
        decodable(stored_form(s)),
        spec_load(Option::Some(stored_form(s))) == (s.label@, s.value_tenths),
{
    let enc = stored_form(s);
    let digits = dec_digits(s.value_tenths as nat);
    let len = digits.len() as int;
    lemma_dec_digits_are_digits(s.value_tenths as nat);
    lemma_parse_dec_digits(s.value_tenths as nat);
    assert(enc.subrange(0, len) =~= digits);
    assert(enc[len] == '\n');
    assert(is_sep(enc, len));
    assert(parsed_value(enc.subrange(0, len)) == s.value_tenths);
    assert(decodable(enc));
    lemma_sep_unique(enc, len, sep_index(enc));
    assert(enc.subrange(len + 1, enc.len() as int) =~= s.label@);
}

} // verus!

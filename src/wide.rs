use libc::wchar_t;
use vstd::prelude::*;

verus! {

/// What a native wide string holds, in mathematical terms.
pub enum WideText {
    Text(Seq<char>),
    Raw(Seq<wchar_t>),
    Absent,
}

/// A native wide string carried over into owned values.
///
/// `Text` holds the decoded text, `Raw` the full sequence of code units when
/// one of them is no Unicode scalar value, and `Absent` stands for an absent string.
#[derive(Clone, Debug)]
pub enum WcharString {
    Text(String),
    Raw(Vec<wchar_t>),
    Absent,
}

impl View for WcharString {
    type V = WideText;

    open spec fn view(&self) -> WideText {
        match self {
            WcharString::Text(s) => WideText::Text(s@),
            WcharString::Raw(v) => WideText::Raw(v@),
            WcharString::Absent => WideText::Absent,
        }
    }
}

/// A code unit that names a Unicode scalar value.
pub open spec fn is_scalar_unit(u: wchar_t) -> bool {
    (0 <= u && u < 0xD800) || (0xE000 <= u && u <= 0x10FFFF)
}

/// The number of code units before the first zero unit (all of them if none is zero).
pub open spec fn wide_len(s: Seq<wchar_t>) -> nat
    decreases s.len(),
{
    if s.len() == 0 || s[0] == 0 {
        0
    } else {
        1 + wide_len(s.drop_first())
    }
}

/// The code units of a zero-terminated wide string held in `s`.
pub open spec fn wide_units(s: Seq<wchar_t>) -> Seq<wchar_t> {
    s.take(wide_len(s) as int)
}

/// Every unit of `s` names a Unicode scalar value.
pub open spec fn all_scalar(s: Seq<wchar_t>) -> bool {
    forall|i: int| 0 <= i < s.len() ==> is_scalar_unit(#[trigger] s[i])
}

/// The characters that the units of `s` name.
pub open spec fn chars_of_units(s: Seq<wchar_t>) -> Seq<char> {
    s.map_values(|u: wchar_t| u as char)
}

/// The marshalled form of a wide string held in `s`: its text when every unit
/// decodes, else the whole sequence of its units.
pub open spec fn decode_wide(s: Seq<wchar_t>) -> WideText {
    let units = wide_units(s);
    if all_scalar(units) {
        WideText::Text(chars_of_units(units))
    } else {
        WideText::Raw(units)
    }
}

/// The marshalled form of a possibly absent wide string.
pub open spec fn decode_wide_opt(s: Option<Seq<wchar_t>>) -> WideText {
    match s {
        Some(units) => decode_wide(units),
        None => WideText::Absent,
    }
}

/// The text of a marshalled string, where it decoded.
pub open spec fn text_of(t: WideText) -> Option<Seq<char>> {
    match t {
        WideText::Text(s) => Some(s),
        _ => None,
    }
}

proof fn lemma_wide_len_step(s: Seq<wchar_t>, i: int)
    requires
        0 <= i <= s.len(),
        forall|j: int| 0 <= j < i ==> s[j] != 0,
    ensures
        wide_len(s) == i + wide_len(s.skip(i)),
    decreases i,
{
    if i > 0 {
        lemma_wide_len_step(s.drop_first(), i - 1);
        assert(s.drop_first().skip(i - 1) =~= s.skip(i));
    } else {
        assert(s.skip(0) =~= s);
    }
}

proof fn lemma_wide_len_bound(s: Seq<wchar_t>)
    ensures
        wide_len(s) <= s.len(),
    decreases s.len(),
{
    if s.len() > 0 && s[0] != 0 {
        lemma_wide_len_bound(s.drop_first());
    }
}

/// A decoded string has no more characters than the units that held it.
pub proof fn lemma_decode_len(s: Seq<wchar_t>)
    ensures
        decode_wide(s) matches WideText::Text(t) ==> t.len() <= s.len(),
{
    lemma_wide_len_bound(s);
}

/// A wide string whose units all decode marshals to exactly the text they
/// name; one with any unit that does not decode marshals to all of its units,
/// not to a part of them.
pub proof fn lemma_marshal_text_or_raw(s: Seq<wchar_t>)
    ensures
        all_scalar(wide_units(s)) ==> decode_wide(s) == WideText::Text(
            chars_of_units(wide_units(s)),
        ),
        !all_scalar(wide_units(s)) ==> decode_wide(s) == WideText::Raw(wide_units(s)),
        wide_units(s).len() == wide_len(s),
        forall|i: int| 0 <= i < wide_len(s) ==> #[trigger] wide_units(s)[i] == s[i] && s[i] != 0,
{
    lemma_wide_len_bound(s);
    assert forall|i: int| 0 <= i < wide_len(s) implies #[trigger] wide_units(s)[i] == s[i] && s[i]
        != 0 by {
        lemma_wide_len_prefix_nonzero(s, i);
    }
}

proof fn lemma_wide_len_prefix_nonzero(s: Seq<wchar_t>, i: int)
    requires
        0 <= i < wide_len(s),
    ensures
        s[i] != 0,
    decreases i,
{
    lemma_wide_len_bound(s);
    if i > 0 {
        lemma_wide_len_prefix_nonzero(s.drop_first(), i - 1);
    }
}

/// Relies on `char::from_u32`: it gives the character exactly when the value
/// is a Unicode scalar value.
#[verifier::external_body]
fn char_from_unit(u: wchar_t) -> (r: Option<char>)
    ensures
        r is Some <==> is_scalar_unit(u),
        r matches Some(c) ==> c == u as char,
{
    char::from_u32(u as u32)
}

/// Relies on `String`'s `FromIterator<char>`: the string holds the characters in order.
#[verifier::external_body]
fn string_from_chars(chars: Vec<char>) -> (r: String)
    ensures
        r@ == chars@,
{
    chars.into_iter().collect()
}

/// Marshals a native wide string: `None` for an absent one; otherwise the units
/// up to the first zero unit (or the end of the slice), as text when all of
/// them decode, else as the whole raw sequence.
pub fn wchar_to_string(wstr: Option<&[wchar_t]>) -> (r: WcharString)
    ensures
        r@ == decode_wide_opt(
            match wstr {
                Some(s) => Some(s@),
                None => None,
            },
        ),
{
    let s = match wstr {
        Some(s) => s,
        None => return WcharString::Absent,
    };
    let mut char_vector: Vec<char> = Vec::new();
    let mut raw_vector: Vec<wchar_t> = Vec::new();
    let mut invalid_char = false;
    let mut index: usize = 0;
    while index < s.len() && s[index] != 0
        invariant
            index <= s@.len(),
            forall|j: int| 0 <= j < index ==> s@[j] != 0,
            raw_vector@ == s@.take(index as int),
            invalid_char <==> !all_scalar(s@.take(index as int)),
            !invalid_char ==> char_vector@ == chars_of_units(s@.take(index as int)),
        decreases s@.len() - index,
    {
        let unit = s[index];
        raw_vector.push(unit);
        if !invalid_char {
            match char_from_unit(unit) {
                Some(c) => char_vector.push(c),
                None => invalid_char = true,
            }
        }
        proof {
            let prev = s@.take(index as int);
            let next = s@.take(index + 1);
            assert(next =~= prev.push(unit));
            assert(next[index as int] == unit);
            if !all_scalar(prev) {
                let k = choose|k: int| 0 <= k < index && !is_scalar_unit(prev[k]);
                assert(next[k] == prev[k]);
            } else if is_scalar_unit(unit) {
                assert(all_scalar(next));
                assert(chars_of_units(next) =~= chars_of_units(prev).push(unit as char));
            }
        }
        index += 1;
    }
    proof {
        lemma_wide_len_step(s@, index as int);
        if index < s@.len() {
            assert(wide_len(s@.skip(index as int)) == 0);
        }
        assert(wide_units(s@) =~= s@.take(index as int));
    }
    if !invalid_char {
        WcharString::Text(string_from_chars(char_vector))
    } else {
        WcharString::Raw(raw_vector)
    }
}

impl WcharString {
    /// A copy with the same contents.
    pub fn copied(&self) -> (r: WcharString)
        ensures
            r@ == self@,
    {
        match self {
            WcharString::Text(s) => WcharString::Text(s.clone()),
            WcharString::Raw(v) => {
                let c = v.clone();
                assert(c@ =~= v@);
                WcharString::Raw(c)
            },
            WcharString::Absent => WcharString::Absent,
        }
    }

    /// The decoded text, or `None` for a raw or absent string.
    pub fn into_string(self) -> (r: Option<String>)
        ensures
            r matches Some(s) ==> text_of(self@) == Some(s@),
            r is None ==> text_of(self@) is None,
    {
        match self {
            WcharString::Text(s) => Some(s),
            _ => None,
        }
    }
}

} // verus!

use vstd::prelude::*;

use crate::audio::AudioState;
use crate::error::{ADCParseError, Error};

verus! {

/// An ASCII decimal digit.
pub open spec fn is_digit_char(c: char) -> bool {
    48 <= c as u32 && c as u32 <= 57
}

/// The numeric value of an ASCII decimal digit.
pub open spec fn digit_val(c: char) -> int {
    c as u32 - 48
}

/// A character of the device-identifier alphabet: a lowercase letter or a
/// decimal digit.
pub open spec fn is_id_char(c: char) -> bool {
    is_digit_char(c) || (97 <= c as u32 && c as u32 <= 122)
}

/// A device identifier starting at position `i`: 55 characters of the shape
/// `{d.d.d.dddddddd}.{gggggggg-gggg-gggg-gggg-gggggggggggg}`, where `d` is a
/// decimal digit and `g` a lowercase letter or digit.
pub open spec fn device_id_at(s: Seq<char>, i: int) -> bool {
    &&& 0 <= i
    &&& i + 55 <= s.len()
    &&& s[i] == '{'
    &&& is_digit_char(s[i + 1])
    &&& s[i + 2] == '.'
    &&& is_digit_char(s[i + 3])
    &&& s[i + 4] == '.'
    &&& is_digit_char(s[i + 5])
    &&& s[i + 6] == '.'
    &&& forall|k: int| i + 7 <= k < i + 15 ==> is_digit_char(s[k])
    &&& s[i + 15] == '}'
    &&& s[i + 16] == '.'
    &&& s[i + 17] == '{'
    &&& forall|k: int| i + 18 <= k < i + 26 ==> is_id_char(s[k])
    &&& s[i + 26] == '-'
    &&& forall|k: int| i + 27 <= k < i + 31 ==> is_id_char(s[k])
    &&& s[i + 31] == '-'
    &&& forall|k: int| i + 32 <= k < i + 36 ==> is_id_char(s[k])
    &&& s[i + 36] == '-'
    &&& forall|k: int| i + 37 <= k < i + 41 ==> is_id_char(s[k])
    &&& s[i + 41] == '-'
    &&& forall|k: int| i + 42 <= k < i + 54 ==> is_id_char(s[k])
    &&& s[i + 54] == '}'
}

fn is_digit(c: char) -> (r: bool)
    ensures
        r == is_digit_char(c),
{
    let u = c as u32;
    48 <= u && u <= 57
}

fn is_id(c: char) -> (r: bool)
    ensures
        r == is_id_char(c),
{
    let u = c as u32;
    (48 <= u && u <= 57) || (97 <= u && u <= 122)
}

/// Whether a run of characters of `s` starting at `from` (exclusive of
/// `to`) consists of identifier characters.
fn id_run(s: &str, from: usize, to: usize) -> (r: bool)
    requires
        from <= to <= s@.len(),
    ensures
        r == forall|k: int| from <= k < to ==> is_id_char(s@[k]),
{
    let mut k = from;
    while k < to
        invariant
            from <= k <= to <= s@.len(),
            forall|j: int| from <= j < k ==> is_id_char(s@[j]),
        decreases to - k,
    {
        if !is_id(s.get_char(k)) {
            return false;
        }
        k = k + 1;
    }
    true
}

/// Whether a run of characters of `s` starting at `from` (exclusive of
/// `to`) consists of decimal digits.
fn digit_run(s: &str, from: usize, to: usize) -> (r: bool)
    requires
        from <= to <= s@.len(),
    ensures
        r == forall|k: int| from <= k < to ==> is_digit_char(s@[k]),
{
    let mut k = from;
    while k < to
        invariant
            from <= k <= to <= s@.len(),
            forall|j: int| from <= j < k ==> is_digit_char(s@[j]),
        decreases to - k,
    {
        if !is_digit(s.get_char(k)) {
            return false;
        }
        k = k + 1;
    }
    true
}

/// Whether a device identifier starts at position `i` of `s`.
fn device_id_match(s: &str, i: usize) -> (r: bool)
    requires
        i + 55 <= s@.len(),
        s@.len() <= usize::MAX,
    ensures
        r == device_id_at(s@, i as int),
{
    if s.get_char(i) != '{' {
        return false;
    }
    if !is_digit(s.get_char(i + 1)) {
        return false;
    }
    if s.get_char(i + 2) != '.' {
        return false;
    }
    if !is_digit(s.get_char(i + 3)) {
        return false;
    }
    if s.get_char(i + 4) != '.' {
        return false;
    }
    if !is_digit(s.get_char(i + 5)) {
        return false;
    }
    if s.get_char(i + 6) != '.' {
        return false;
    }
    if !digit_run(s, i + 7, i + 15) {
        return false;
    }
    if s.get_char(i + 15) != '}' {
        return false;
    }
    if s.get_char(i + 16) != '.' {
        return false;
    }
    if s.get_char(i + 17) != '{' {
        return false;
    }
    if !id_run(s, i + 18, i + 26) {
        return false;
    }
    if s.get_char(i + 26) != '-' {
        return false;
    }
    if !id_run(s, i + 27, i + 31) {
        return false;
    }
    if s.get_char(i + 31) != '-' {
        return false;
    }
    if !id_run(s, i + 32, i + 36) {
        return false;
    }
    if s.get_char(i + 36) != '-' {
        return false;
    }
    if !id_run(s, i + 37, i + 41) {
        return false;
    }
    if s.get_char(i + 41) != '-' {
        return false;
    }
    if !id_run(s, i + 42, i + 54) {
        return false;
    }
    if s.get_char(i + 54) != '}' {
        return false;
    }
    true
}

/// Extract the leftmost device identifier from the primary-device readout.
/// Succeeds iff the readout contains a device identifier anywhere; the
/// result is the 55-character identifier that starts earliest.
pub fn parse_primary_device(readout: &str) -> (r: Result<String, Error>)
    ensures
        r is Ok <==> exists|i: int| device_id_at(readout@, i),
        r matches Ok(id) ==> exists|i: int|
            {
                &&& device_id_at(readout@, i)
                &&& forall|j: int| 0 <= j < i ==> !device_id_at(readout@, j)
                &&& id@ == readout@.subrange(i, i + 55)
            },
        r matches Err(e) ==> e matches Error::ADCParseError(p) && p.output@ == readout@
            && p.description@ == "should contain a device ID string 55 characters long"@,
{
    let n = readout.unicode_len();
    if n >= 55 {
        let mut i: usize = 0;
        while i <= n - 55
            invariant
                n == readout@.len(),
                55 <= n,
                i <= n,
                forall|j: int| 0 <= j < i ==> !device_id_at(readout@, j),
            decreases n - i,
        {
            if device_id_match(readout, i) {
                let id = readout.substring_char(i, i + 55).to_owned();
                return Ok(id);
            }
            i = i + 1;
        }
    }
    proof {
        assert forall|j: int| !device_id_at(readout@, j) by {
            if 0 <= j && j + 55 <= readout@.len() {
                assert(!device_id_at(readout@, j));
            }
        }
    }
    Err(
        Error::ADCParseError(
            ADCParseError {
                output: readout.to_owned(),
                description: "should contain a device ID string 55 characters long",
            },
        ),
    )
}

/// The literal `100` starting at position `i`.
pub open spec fn hundred_at(s: Seq<char>, i: int) -> bool {
    &&& i + 3 <= s.len()
    &&& s[i] == '1'
    &&& s[i + 1] == '0'
    &&& s[i + 2] == '0'
}

/// The volume denoted by the leftmost-preferred match starting at the first
/// digit position `i`: the three-digit literal `100` when it starts there,
/// otherwise the one or two digits that do.
pub open spec fn volume_value_at(s: Seq<char>, i: int) -> int {
    if hundred_at(s, i) {
        100
    } else if i + 2 <= s.len() && is_digit_char(s[i + 1]) {
        10 * digit_val(s[i]) + digit_val(s[i + 1])
    } else {
        digit_val(s[i])
    }
}

/// Extract the playback volume from the volume readout.  Succeeds iff the
/// readout contains a decimal digit; the value is read at the first digit,
/// preferring the literal `100`, else up to two digits.  The result never
/// exceeds 100.
pub fn parse_volume(readout: &str) -> (r: Result<u8, Error>)
    ensures
        r is Ok <==> exists|i: int| 0 <= i < readout@.len() && is_digit_char(readout@[i]),
        r matches Ok(v) ==> exists|i: int|
            {
                &&& 0 <= i < readout@.len()
                &&& is_digit_char(readout@[i])
                &&& forall|j: int| 0 <= j < i ==> !is_digit_char(readout@[j])
                &&& v as int == volume_value_at(readout@, i)
            },
        r matches Ok(v) ==> v <= 100,
        r matches Err(e) ==> e matches Error::ADCParseError(p) && p.output@ == readout@
            && p.description@ == "should contain an integer from 0 to 100"@,
{
    let n = readout.unicode_len();
    let mut i: usize = 0;
    while i < n
        invariant
            n == readout@.len(),
            i <= n,
            forall|j: int| 0 <= j < i ==> !is_digit_char(readout@[j]),
        decreases n - i,
    {
        let c = readout.get_char(i);
        if is_digit(c) {
            if n - i >= 3 && c == '1' && readout.get_char(i + 1) == '0' && readout.get_char(i + 2)
                == '0' {
                proof {
                    assert(volume_value_at(readout@, i as int) == 100);
                }
                return Ok(100);
            }
            let d0: u8 = (c as u32 - 48) as u8;
            if n - i >= 2 {
                let c1 = readout.get_char(i + 1);
                if is_digit(c1) {
                    let d1: u8 = (c1 as u32 - 48) as u8;
                    proof {
                        assert(volume_value_at(readout@, i as int) == 10 * digit_val(
                            readout@[i as int],
                        ) + digit_val(readout@[i + 1]));
                    }
                    return Ok(10 * d0 + d1);
                }
            }
            proof {
                assert(volume_value_at(readout@, i as int) == digit_val(readout@[i as int]));
            }
            return Ok(d0);
        }
        i = i + 1;
    }
    Err(
        Error::ADCParseError(
            ADCParseError {
                output: readout.to_owned(),
                description: "should contain an integer from 0 to 100",
            },
        ),
    )
}

/// The literal `True` starting at position `i`.
pub open spec fn true_at(s: Seq<char>, i: int) -> bool {
    &&& 0 <= i
    &&& i + 4 <= s.len()
    &&& s[i] == 'T'
    &&& s[i + 1] == 'r'
    &&& s[i + 2] == 'u'
    &&& s[i + 3] == 'e'
}

/// The literal `False` starting at position `i`.
pub open spec fn false_at(s: Seq<char>, i: int) -> bool {
    &&& 0 <= i
    &&& i + 5 <= s.len()
    &&& s[i] == 'F'
    &&& s[i + 1] == 'a'
    &&& s[i + 2] == 'l'
    &&& s[i + 3] == 's'
    &&& s[i + 4] == 'e'
}

/// Either boolean literal starting at position `i`.
pub open spec fn bool_token_at(s: Seq<char>, i: int) -> bool {
    true_at(s, i) || false_at(s, i)
}

/// Extract the mute flag from the mute readout.  Succeeds iff the readout
/// contains the literal `True` or `False`; the earliest such literal
/// decides the flag.
pub fn parse_muted(readout: &str) -> (r: Result<bool, Error>)
    ensures
        r is Ok <==> exists|i: int| bool_token_at(readout@, i),
        r matches Ok(b) ==> exists|i: int|
            {
                &&& bool_token_at(readout@, i)
                &&& forall|j: int| 0 <= j < i ==> !bool_token_at(readout@, j)
                &&& b == true_at(readout@, i)
            },
        r matches Err(e) ==> e matches Error::ADCParseError(p) && p.output@ == readout@
            && p.description@ == "should contain 'True' or 'False'"@,
{
    let n = readout.unicode_len();
    let mut i: usize = 0;
    while i < n
        invariant
            n == readout@.len(),
            i <= n,
            forall|j: int| 0 <= j < i ==> !bool_token_at(readout@, j),
        decreases n - i,
    {
        if n - i >= 4 && readout.get_char(i) == 'T' && readout.get_char(i + 1) == 'r'
            && readout.get_char(i + 2) == 'u' && readout.get_char(i + 3) == 'e' {
            proof {
                assert(true_at(readout@, i as int));
                assert(bool_token_at(readout@, i as int));
            }
            return Ok(true);
        }
        if n - i >= 5 && readout.get_char(i) == 'F' && readout.get_char(i + 1) == 'a'
            && readout.get_char(i + 2) == 'l' && readout.get_char(i + 3) == 's' && readout.get_char(
            i + 4,
        ) == 'e' {
            proof {
                assert(false_at(readout@, i as int));
                assert(bool_token_at(readout@, i as int));
                assert(!true_at(readout@, i as int));
            }
            return Ok(false);
        }
        i = i + 1;
    }
    proof {
        assert forall|j: int| !bool_token_at(readout@, j) by {
            if 0 <= j < readout@.len() {
                assert(!bool_token_at(readout@, j));
            }
        }
    }
    Err(
        Error::ADCParseError(
            ADCParseError { output: readout.to_owned(), description: "should contain 'True' or 'False'" },
        ),
    )
}

/// Assemble an observed audio state from the three raw readouts of the
/// scripting module, in the order primary device, volume, mute; the first
/// readout whose shape is wrong decides the error.
pub fn audio_state_from_readouts(
    primary_readout: &str,
    volume_readout: &str,
    muted_readout: &str,
) -> (r: Result<AudioState, Error>)
    ensures
        r is Ok <==> {
            &&& exists|i: int| device_id_at(primary_readout@, i)
            &&& exists|i: int| 0 <= i < volume_readout@.len() && is_digit_char(volume_readout@[i])
            &&& exists|i: int| bool_token_at(muted_readout@, i)
        },
        r matches Ok(a) ==> {
            &&& exists|i: int|
                {
                    &&& device_id_at(primary_readout@, i)
                    &&& forall|j: int| 0 <= j < i ==> !device_id_at(primary_readout@, j)
                    &&& a.primary_device_id@ == primary_readout@.subrange(i, i + 55)
                }
            &&& a.volume matches Some(v) && exists|i: int|
                {
                    &&& 0 <= i < volume_readout@.len()
                    &&& is_digit_char(volume_readout@[i])
                    &&& forall|j: int| 0 <= j < i ==> !is_digit_char(volume_readout@[j])
                    &&& v as int == volume_value_at(volume_readout@, i)
                }
            &&& a.muted matches Some(m) && exists|i: int|
                {
                    &&& bool_token_at(muted_readout@, i)
                    &&& forall|j: int| 0 <= j < i ==> !bool_token_at(muted_readout@, j)
                    &&& m == true_at(muted_readout@, i)
                }
        },
        r matches Err(e) ==> e matches Error::ADCParseError(p) && if !(exists|i: int|
            device_id_at(primary_readout@, i)) {
            p.output@ == primary_readout@ && p.description@
                == "should contain a device ID string 55 characters long"@
        } else if !(exists|i: int|
            0 <= i < volume_readout@.len() && is_digit_char(volume_readout@[i])) {
            p.output@ == volume_readout@ && p.description@
                == "should contain an integer from 0 to 100"@
        } else {
            p.output@ == muted_readout@ && !(exists|i: int| bool_token_at(muted_readout@, i))
                && p.description@ == "should contain 'True' or 'False'"@
        },
{
    let primary_device_id = match parse_primary_device(primary_readout) {
        Ok(id) => id,
        Err(e) => return Err(e),
    };
    let volume = match parse_volume(volume_readout) {
        Ok(v) => v,
        Err(e) => return Err(e),
    };
    let muted = match parse_muted(muted_readout) {
        Ok(m) => m,
        Err(e) => return Err(e),
    };
    Ok(AudioState { primary_device_id, volume: Some(volume), muted: Some(muted) })
}

} // verus!

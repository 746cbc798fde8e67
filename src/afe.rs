//! What one fetch from the voice-activity engine yields.
use vstd::prelude::*;

verus! {

/// Processed audio of one fetch and whether the engine judged it speech.
#[derive(Debug)]
pub struct AFEResult {
    pub data: Vec<u8>,
    pub speech: bool,
}

/// Builds the outcome of one fetch from the engine's report: its status code,
/// the pre-roll cache bytes (audio from just before speech was detected), the
/// main data bytes and the speech flag. A non-zero status is an error; the
/// cache comes ahead of the data so that the onset of speech is kept.
pub fn fetch_result(ret_value: i32, cache: &[u8], data: &[u8], speech: bool) -> (r: Result<
    AFEResult,
    i32,
>)
    ensures
        ret_value != 0 ==> r == Err::<AFEResult, i32>(ret_value),
        ret_value == 0 ==> (r matches Ok(res) && res.data@ == cache@ + data@ && res.speech
            == speech),
{
    if ret_value != 0 {
        return Err(ret_value);
    }
    let mut out: Vec<u8> = Vec::new();
    let mut i: usize = 0;
    while i < cache.len()
        invariant
            i <= cache@.len(),
            out@ == cache@.subrange(0, i as int),
        decreases cache@.len() - i,
    {
        out.push(cache[i]);
        i = i + 1;
    }
    let mut j: usize = 0;
    while j < data.len()
        invariant
            j <= data@.len(),
            out@ == cache@ + data@.subrange(0, j as int),
        decreases data@.len() - j,
    {
        out.push(data[j]);
        j = j + 1;
    }
    assert(cache@.subrange(0, cache@.len() as int) == cache@);
    assert(data@.subrange(0, data@.len() as int) == data@);
    Ok(AFEResult { data: out, speech })
}

} // verus!

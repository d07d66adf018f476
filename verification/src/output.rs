//! The layout of the final file.

use vstd::prelude::*;

verus! {

/// The final file: the tag container and, right behind it, the transcoded
/// audio. Nothing stands before, between or behind them.
pub fn assemble(tag: Vec<u8>, audio: Vec<u8>) -> (file: Vec<u8>)
    ensures
        file@ == tag@ + audio@,
{
    let mut file = tag;
    let mut audio = audio;
    file.append(&mut audio);
    file
}

} // verus!

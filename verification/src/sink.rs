//! The accounting half of the streaming sink.
//!
//! The sink itself owns an append-mode file handle and lives with the
//! driver that performs the writes; the rules it follows are here. A chunk
//! is either written in full — and then the transport must be told that
//! exactly the whole chunk was accepted, since a short count is a
//! pause/abort signal — or the transfer is aborted.
use vstd::prelude::*;

verus! {

/// The signal handed back to the transport when a write fails: pause the
/// transfer, which aborts it rather than dropping bytes silently.
#[derive(Clone, Copy, Debug, PartialEq, Eq, Structural)]
pub enum WriteSignal {
    Pause,
}

/// What the sink reports for one delivered chunk: the full chunk length
/// when the write went through, the pause signal when it did not.
pub fn accept_report(chunk_len: usize, wrote_all: bool) -> (r: Result<usize, WriteSignal>)
    ensures
        wrote_all ==> r == Ok::<usize, WriteSignal>(chunk_len),
        !wrote_all ==> r == Err::<usize, WriteSignal>(WriteSignal::Pause),
{
    if wrote_all {
        Ok(chunk_len)
    } else {
        Err(WriteSignal::Pause)
    }
}

/// The size to resume from, given what a stat of the destination path
/// reported: the on-disk size, or 0 where there is no file to be measured.
pub fn existing_file_size(len_on_disk: Option<u64>) -> (r: usize)
    ensures
        match len_on_disk {
            Some(s) => r == s as usize,
            None => r == 0,
        },
{
    match len_on_disk {
        Some(s) => s as usize,
        None => 0,
    }
}

} // verus!

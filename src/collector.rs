//! What the terminal reader forwards after each read.

use vstd::prelude::*;

verus! {

/// The size of the buffer each terminal read fills.
pub const READ_CHUNK_SIZE: usize = 10240;

/// How a read from the terminal went.
#[derive(PartialEq, Eq, Structural, Clone, Copy, Debug)]
pub enum ReadOutcome {
    /// This many bytes were read into the buffer; zero at end of file.
    Read(usize),
    /// The read failed.
    Failed,
}

/// The chunk to forward after a read into `buf`: the bytes read, exactly;
/// nothing at end of file or after an error, which end the reader.
pub fn chunk_to_forward(buf: &[u8], outcome: ReadOutcome) -> (r: Option<Vec<u8>>)
    requires
        outcome matches ReadOutcome::Read(n) ==> n <= buf@.len(),
    ensures
        match outcome {
            ReadOutcome::Read(n) => if n == 0 {
                r.is_none()
            } else {
                r.is_some() && r.unwrap()@ == buf@.take(n as int)
            },
            ReadOutcome::Failed => r.is_none(),
        },
{
    match outcome {
        ReadOutcome::Read(n) => {
            if n == 0 {
                return None;
            }
            let mut chunk: Vec<u8> = Vec::with_capacity(n);
            let mut i: usize = 0;
            while i < n
                invariant
                    n <= buf@.len(),
                    i <= n,
                    chunk@ == buf@.take(i as int),
                decreases n - i,
            {
                chunk.push(buf[i]);
                i = i + 1;
                assert(chunk@ =~= buf@.take(i as int));
            }
            Some(chunk)
        },
        ReadOutcome::Failed => None,
    }
}

} // verus!

//! Persisting a pushed base64 payload in bounded memory: the encoded text is
//! split into fixed-size slices whose length is a multiple of the four-byte
//! encoding unit, each slice is decoded independently and handed to the
//! caller to append to the destination file, and a slice that fails to
//! decode ends the save at once with the index of the offending chunk —
//! what earlier chunks wrote stays on disk. At no point does more than one
//! chunk's encoded and decoded form live in memory.

use vstd::prelude::*;
use vstd::string::StrSliceExecFns;
use vstd::string::StringExecFns;
use crate::errors::SaveError;
use crate::strutil::dec_rep;
use crate::strutil::u64_to_string;

verus! {

/// The number of encoded characters decoded at a time: four mebibytes, a
/// whole number of four-character base64 units, so no slice boundary falls
/// inside a unit.
pub const SAVE_CHUNK_SIZE: usize = 4194304;

/// What base64 (standard alphabet, padded) decoding of the given text
/// yields: the decoded bytes, or nothing when the text is not valid base64.
pub uninterp spec fn b64_decode_of(s: Seq<char>) -> Option<Seq<u8>>;

/// Relies on base64's `Engine::decode` with the `STANDARD` engine: it
/// decodes exactly the standard, padded base64 of its input, a function of
/// the input text alone, and errs exactly on text that is not such base64.
/// Four input characters become at most three bytes — and any accepted input
/// is pure ASCII, one byte per character — so the decoded bytes never
/// outnumber the input characters.
#[verifier::external_body]
fn decode_base64_chunk(s: &str) -> (r: Result<Vec<u8>, String>)
    ensures
        r matches Ok(v) ==> b64_decode_of(s@) == Some(v@) && v@.len() <= s@.len(),
        r is Err ==> b64_decode_of(s@) is None,
{
    match base64::Engine::decode(&base64::engine::general_purpose::STANDARD, s) {
        Ok(v) => Ok(v),
        Err(e) => Err(e.to_string()),
    }
}

/// The first slice of `p`, at most `c` characters.
pub open spec fn head_chunk(p: Seq<char>, c: nat) -> Seq<char> {
    if p.len() <= c {
        p
    } else {
        p.take(c as int)
    }
}

/// What is left of `p` after its first slice of at most `c` characters.
pub open spec fn tail_after_chunk(p: Seq<char>, c: nat) -> Seq<char> {
    if p.len() <= c {
        Seq::empty()
    } else {
        p.skip(c as int)
    }
}

/// Slice-by-slice decoding of `p` in slices of `c` characters: the
/// concatenated decodings of the slices, or nothing as soon as one slice
/// fails to decode.
pub open spec fn chunked_decode(p: Seq<char>, c: nat) -> Option<Seq<u8>>
    decreases p.len(),
    when c > 0
{
    if p.len() == 0 {
        Some(Seq::empty())
    } else {
        match b64_decode_of(head_chunk(p, c)) {
            None => None,
            Some(v) => match chunked_decode(tail_after_chunk(p, c), c) {
                None => None,
                Some(w) => Some(v + w),
            },
        }
    }
}

/// A payload of at most one slice round-trips: its slice-by-slice decoding
/// is exactly the single-pass decoding of the whole payload. (For longer
/// payloads the two agree only because base64 decoding composes over
/// unit-aligned splits, a fact of the decoder itself that is not stated
/// here.)
pub proof fn lemma_single_chunk_is_single_pass(p: Seq<char>, c: nat)
    requires
        c > 0,
        0 < p.len() <= c,
    ensures
        chunked_decode(p, c) == b64_decode_of(p),
{
    assert(head_chunk(p, c) == p);
    assert(tail_after_chunk(p, c) =~= Seq::<char>::empty());
    assert(chunked_decode(tail_after_chunk(p, c), c) == Some(Seq::<u8>::empty()));
    if let Some(v) = b64_decode_of(p) {
        assert(v + Seq::<u8>::empty() =~= v);
        assert(chunked_decode(p, c) == Some(v));
    }
}

/// Prefixes `pre` to a decoding that may have failed.
pub open spec fn opt_prepend(pre: Seq<u8>, rest: Option<Seq<u8>>) -> Option<Seq<u8>> {
    match rest {
        None => None,
        Some(w) => Some(pre + w),
    }
}

/// One step of a chunked save: the decoded bytes of the next chunk for the
/// caller to append to the file, or the end of the payload with the total
/// byte count, or the failure of the chunk that would not decode.
#[derive(Debug, PartialEq, Eq)]
pub enum SaveStep {
    /// Append these decoded bytes to the destination file.
    Write(Vec<u8>),
    /// The payload is exhausted; this many bytes were handed out in all.
    Done(u64),
    /// The current chunk is not valid base64; the save ends here and the
    /// bytes of the earlier chunks stay on disk.
    Fail(SaveError),
}

/// One chunked save in progress. It walks the encoded payload slice by
/// slice; the bytes handed out so far are exactly the decodings of the
/// slices consumed so far, in order.
pub struct ChunkedSaver {
    /// The encoded text as pushed by the caller.
    pub payload: String,
    /// How many encoded characters one slice holds; a positive multiple of
    /// the four-character encoding unit.
    pub chunk_size: usize,
    /// How many encoded characters have been consumed.
    pub pos: usize,
    /// How many chunks have been consumed.
    pub index: usize,
    /// How many decoded bytes have been handed out.
    pub written: u64,
    /// The decoded bytes handed out so far, in order.
    pub output: Ghost<Seq<u8>>,
    /// Whether the save has ended, in either outcome.
    pub done: bool,
}

impl ChunkedSaver {
    /// What is left of the payload.
    pub open spec fn remaining(&self) -> Seq<char> {
        self.payload@.skip(self.pos as int)
    }

    /// A live save stands at a slice boundary: what it has handed out,
    /// prefixed to the slice-by-slice decoding of what is left, is the
    /// slice-by-slice decoding of the whole payload.
    pub open spec fn wf(&self) -> bool {
        &&& self.chunk_size > 0
        &&& self.chunk_size % 4 == 0
        &&& !self.done ==> {
            &&& self.pos <= self.payload@.len()
            &&& self.written == self.output@.len()
            &&& self.written <= self.pos
            &&& self.index <= self.pos
            &&& chunked_decode(self.payload@, self.chunk_size as nat) == opt_prepend(
                self.output@,
                chunked_decode(self.remaining(), self.chunk_size as nat),
            )
        }
    }

    /// Starts a save of the given payload, in slices of `chunk_size`
    /// characters.
    pub fn new(payload: String, chunk_size: usize) -> (s: Self)
        requires
            chunk_size > 0,
            chunk_size % 4 == 0,
        ensures
            s.wf(),
            !s.done,
            s.payload == payload,
            s.chunk_size == chunk_size,
            s.pos == 0,
            s.index == 0,
            s.written == 0,
            s.output@ =~= Seq::<u8>::empty(),
    {
        let s = ChunkedSaver {
            payload,
            chunk_size,
            pos: 0,
            index: 0,
            written: 0,
            output: Ghost(Seq::empty()),
            done: false,
        };
        proof {
            assert(s.remaining() =~= s.payload@);
            if let Some(w) = chunked_decode(s.payload@, s.chunk_size as nat) {
                assert(Seq::<u8>::empty() + w =~= w);
            }
        }
        s
    }

    /// Takes the next step: decodes the next slice and hands its bytes out,
    /// reports the end of the payload, or fails on the slice that is not
    /// valid base64. On failure the earlier chunks' bytes stand as handed
    /// out; nothing is taken back.
    pub fn next(&mut self) -> (step: SaveStep)
        requires
            old(self).wf(),
            !old(self).done,
        ensures
            final(self).wf(),
            final(self).payload == old(self).payload,
            final(self).chunk_size == old(self).chunk_size,
            if old(self).pos == old(self).payload@.len() {
                &&& step == SaveStep::Done(old(self).written)
                &&& chunked_decode(old(self).payload@, old(self).chunk_size as nat) == Some(
                    old(self).output@,
                )
                &&& final(self).done
                &&& final(self).output@ == old(self).output@
                &&& final(self).written == old(self).written
            } else {
                let head = head_chunk(old(self).remaining(), old(self).chunk_size as nat);
                match b64_decode_of(head) {
                    Some(v) => {
                        &&& step matches SaveStep::Write(w) && w@ == v
                        &&& !final(self).done
                        &&& final(self).output@ == old(self).output@ + v
                        &&& final(self).written == old(self).written + v.len()
                        &&& final(self).index == old(self).index + 1
                    },
                    None => {
                        &&& step matches SaveStep::Fail(e) && e matches SaveError::ChunkDecode {
                            index,
                            ..
                        } && index == old(self).index
                        &&& chunked_decode(old(self).payload@, old(self).chunk_size as nat)
                            is None
                        &&& final(self).done
                        &&& final(self).output@ == old(self).output@
                        &&& final(self).written == old(self).written
                    },
                }
            },
    {
        let len = self.payload.as_str().unicode_len();
        if self.pos == len {
            self.done = true;
            proof {
                assert(self.remaining() =~= Seq::<char>::empty());
                assert(self.output@ + Seq::<u8>::empty() =~= self.output@);
            }
            SaveStep::Done(self.written)
        } else {
            let end = if len - self.pos <= self.chunk_size {
                len
            } else {
                self.pos + self.chunk_size
            };
            let slice = self.payload.as_str().substring_char(self.pos, end);
            let ghost rem = self.remaining();
            let ghost c = self.chunk_size as nat;
            proof {
                assert(head_chunk(rem, c) =~= slice@);
                assert(tail_after_chunk(rem, c) =~= self.payload@.skip(end as int));
            }
            match decode_base64_chunk(slice) {
                Ok(v) => {
                    let ghost old_output = self.output@;
                    proof {
                        assert(chunked_decode(rem, c) == opt_prepend(
                            v@,
                            chunked_decode(self.payload@.skip(end as int), c),
                        ));
                    }
                    self.written = self.written + (v.len() as u64);
                    self.pos = end;
                    self.index = self.index + 1;
                    self.output = Ghost(self.output@ + v@);
                    proof {
                        if let Some(w) = chunked_decode(self.remaining(), c) {
                            assert(old_output + (v@ + w) =~= (old_output + v@) + w);
                        }
                    }
                    SaveStep::Write(v)
                },
                Err(detail) => {
                    self.done = true;
                    proof {
                        assert(chunked_decode(rem, c) is None);
                    }
                    SaveStep::Fail(SaveError::ChunkDecode { index: self.index, detail })
                },
            }
        }
    }
}

/// Judges the save's first step: the destination's parent directory must
/// exist, either already or freshly created.
pub fn save_parent_check(parent_existed: bool, created: bool, detail: String) -> (r: Result<
    (),
    SaveError,
>)
    ensures
        if parent_existed || created {
            r is Ok
        } else {
            r matches Err(e) && e == SaveError::DirectoryCreateFailed(detail)
        },
{
    if parent_existed || created {
        Ok(())
    } else {
        Err(SaveError::DirectoryCreateFailed(detail))
    }
}

/// The success message of a finished save, naming the destination and the
/// byte count.
pub fn save_success_message(path: &str, bytes_written: u64) -> (m: String)
    ensures
        m@ == "File saved successfully to: "@ + path@ + " ("@ + dec_rep(bytes_written as int)
            + " bytes)"@,
{
    let n = u64_to_string(bytes_written);
    String::from_str("File saved successfully to: ").concat(path).concat(" (").concat(
        n.as_str(),
    ).concat(" bytes)")
}

} // verus!

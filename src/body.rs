//! A body whose length was declared up front, drained from a stream in
//! bounded chunks and then materialized as bytes, text or a property list.

use vstd::prelude::*;
use vstd::utf8::{decode_utf8, valid_utf8};

use crate::decode::{dictionary_len, empty_dictionary, lossy_text, lossy_utf8, parse_plist, parsed_plist};

verus! {

/// Largest number of bytes asked of the stream in one read.
pub const CHUNK_LEN: usize = 512;

/// Why a body could not be materialized.
#[derive(Clone, Copy, Debug, PartialEq, Eq, Structural)]
pub enum BodyError {
    /// The stream closed or failed before the declared length was reached.
    Io,
    /// The bytes were read in full but are not a well-formed property list.
    MalformedPayload,
}

/// The abstract state of a body: its declared length and the bytes received.
pub ghost struct BodyState {
    pub declared: nat,
    pub received: Seq<u8>,
}

impl BodyState {
    pub open spec fn wf(self) -> bool {
        self.received.len() <= self.declared
    }

    pub open spec fn remaining(self) -> nat {
        (self.declared - self.received.len()) as nat
    }

    pub open spec fn is_complete(self) -> bool {
        self.received.len() == self.declared
    }

    /// How many bytes the next read asks for: the rest, up to one chunk.
    pub open spec fn next_read(self) -> nat {
        if self.remaining() < CHUNK_LEN {
            self.remaining()
        } else {
            CHUNK_LEN as nat
        }
    }

    /// A read must deliver exactly what was asked for; anything shorter or
    /// longer means the stream did not hold up its end.
    pub open spec fn accept(self, chunk: Seq<u8>) -> Result<BodyState, BodyError> {
        if chunk.len() == self.next_read() {
            Ok(BodyState { declared: self.declared, received: self.received + chunk })
        } else {
            Err(BodyError::Io)
        }
    }

    /// The bytes that a complete body materializes to.
    pub open spec fn bytes(self) -> Result<Seq<u8>, BodyError> {
        if self.is_complete() {
            Ok(self.received)
        } else {
            Err(BodyError::Io)
        }
    }

    /// The text that a complete body materializes to.
    pub open spec fn text(self) -> Result<Seq<char>, BodyError> {
        if self.is_complete() {
            Ok(utf8_text(self.received))
        } else {
            Err(BodyError::Io)
        }
    }

    /// What a body materializes to as a property list: an empty body is an
    /// empty dictionary, without a parse; any other complete body is what
    /// the parser makes of its bytes, `None` standing for the empty one.
    pub open spec fn plist(self) -> Result<Option<plist::Value>, BodyError> {
        if !self.is_complete() {
            Err(BodyError::Io)
        } else if self.declared == 0 {
            Ok(None)
        } else {
            match parsed_plist(self.received) {
                Some(v) => Ok(Some(v)),
                None => Err(BodyError::MalformedPayload),
            }
        }
    }
}

/// Lossy UTF-8 decoding: valid input decodes exactly, anything else has its
/// invalid sequences replaced.
pub open spec fn utf8_text(b: Seq<u8>) -> Seq<char> {
    if valid_utf8(b) {
        decode_utf8(b)
    } else {
        lossy_utf8(b)
    }
}

/// A body being drained: the declared length and the bytes received so far.
pub struct Body {
    len: usize,
    received: Vec<u8>,
}

impl Body {
    #[verifier::type_invariant]
    spec fn inv(self) -> bool {
        self.received@.len() <= self.len
    }
}

impl View for Body {
    type V = BodyState;

    closed spec fn view(&self) -> BodyState {
        BodyState { declared: self.len as nat, received: self.received@ }
    }
}

impl Body {
    /// A body of `len` bytes of which none has been read yet.
    pub fn new(len: usize) -> (r: Body)
        ensures
            r@.wf(),
            r@ == (BodyState { declared: len as nat, received: Seq::empty() }),
    {
        Body { len, received: Vec::with_capacity(len) }
    }

    /// The length the body was declared with.
    pub fn declared_len(&self) -> (r: usize)
        ensures
            r == self@.declared,
    {
        self.len
    }

    /// Whether every declared byte has been received.
    pub fn is_complete(&self) -> (r: bool)
        ensures
            r == self@.is_complete(),
    {
        self.received.len() == self.len
    }

    /// How many bytes the next read must deliver; zero once complete.
    pub fn next_read(&self) -> (r: usize)
        ensures
            r == self@.next_read(),
            r == 0 <==> self@.is_complete(),
    {
        proof {
            use_type_invariant(self);
        }
        let remaining = self.len - self.received.len();
        if remaining < CHUNK_LEN {
            remaining
        } else {
            CHUNK_LEN
        }
    }

    /// Takes the bytes that the last read delivered. They are kept only when
    /// they are exactly as many as `next_read` asked for; otherwise the read
    /// fell short and the body is left as it was.
    pub fn accept(&mut self, chunk: &[u8]) -> (r: Result<(), BodyError>)
        ensures
            final(self)@.wf(),
            match old(self)@.accept(chunk@) {
                Ok(next) => r == Ok::<(), BodyError>(()) && final(self)@ == next,
                Err(e) => r == Err::<(), BodyError>(e) && final(self)@ == old(self)@,
            },
    {
        proof {
            use_type_invariant(&*self);
        }
        if chunk.len() != self.next_read() {
            return Err(BodyError::Io);
        }
        let mut received = Vec::new();
        std::mem::swap(&mut received, &mut self.received);
        received.extend_from_slice(chunk);
        proof {
            assert(received@ =~= old(self).received@ + chunk@);
        }
        self.received = received;
        Ok(())
    }

    /// The body's bytes, once all of them have been received. A body whose
    /// stream gave out early is an I/O failure, never a short result.
    pub fn array(self) -> (r: Result<Vec<u8>, BodyError>)
        ensures
            match self@.bytes() {
                Ok(b) => r is Ok && r->Ok_0@ == b,
                Err(e) => r == Err::<Vec<u8>, BodyError>(e),
            },
    {
        if self.received.len() != self.len {
            return Err(BodyError::Io);
        }
        Ok(self.received)
    }

    /// The body decoded as UTF-8, with each invalid sequence replaced by
    /// U+FFFD; decoding itself never fails.
    pub fn text(self) -> (r: Result<String, BodyError>)
        ensures
            match self@.text() {
                Ok(t) => r is Ok && r->Ok_0@ == t,
                Err(e) => r == Err::<String, BodyError>(e),
            },
    {
        let bytes = self.array()?;
        Ok(lossy_text(bytes.as_slice()))
    }

    /// The body read as a property-list document. An empty body reads as
    /// an empty dictionary.
    pub fn plist(self) -> (r: Result<plist::Value, BodyError>)
        ensures
            match self@.plist() {
                Ok(Some(v)) => r == Ok::<plist::Value, BodyError>(v),
                Ok(None) => r is Ok && dictionary_len(r->Ok_0) == Some(0nat),
                Err(e) => r == Err::<plist::Value, BodyError>(e),
            },
    {
        let bytes = self.array()?;
        if bytes.len() == 0 {
            return Ok(empty_dictionary());
        }
        match parse_plist(bytes.as_slice()) {
            Ok(value) => Ok(value),
            Err(_) => Err(BodyError::MalformedPayload),
        }
    }
}

} // verus!

//! What draining a body off a stream comes to, read by read.
//!
//! A stream is modelled by the bytes it still holds before it closes. Each
//! read asks for `next_read` bytes and is handed as many as the stream holds,
//! up to that count; the body then accepts or refuses what it was handed.

use vstd::prelude::*;

use crate::body::{BodyError, BodyState};

verus! {

/// Where draining stops: the body as it then stands, how many bytes of the
/// stream were taken, and how many reads were issued.
pub ghost struct Drained {
    pub state: BodyState,
    pub consumed: nat,
    pub reads: nat,
}

/// The body that `Body::new(declared)` starts from.
pub open spec fn fresh(declared: nat) -> BodyState {
    BodyState { declared, received: Seq::empty() }
}

/// Runs the body's reads against a stream until it is complete or a read
/// falls short.
pub open spec fn drain(state: BodyState, stream: Seq<u8>) -> Drained
    decreases state.declared - state.received.len(),
{
    if state.received.len() >= state.declared {
        Drained { state, consumed: 0, reads: 0 }
    } else {
        let n = state.next_read();
        let delivered = if stream.len() < n {
            stream
        } else {
            stream.subrange(0, n as int)
        };
        match state.accept(delivered) {
            Ok(next) => {
                let rest = drain(next, stream.subrange(n as int, stream.len() as int));
                Drained { state: rest.state, consumed: rest.consumed + n, reads: rest.reads + 1 }
            },
            Err(_) => Drained { state, consumed: delivered.len(), reads: 1 },
        }
    }
}

proof fn lemma_drain_full(state: BodyState, stream: Seq<u8>)
    requires
        state.wf(),
        stream.len() >= state.remaining(),
    ensures
        drain(state, stream).state == (BodyState {
            declared: state.declared,
            received: state.received + stream.subrange(0, state.remaining() as int),
        }),
        drain(state, stream).consumed == state.remaining(),
    decreases state.remaining(),
{
    if state.received.len() < state.declared {
        let n = state.next_read();
        let next = BodyState {
            declared: state.declared,
            received: state.received + stream.subrange(0, n as int),
        };
        let rest = stream.subrange(n as int, stream.len() as int);
        lemma_drain_full(next, rest);
        assert(next.received + rest.subrange(0, next.remaining() as int) =~= state.received
            + stream.subrange(0, state.remaining() as int));
    } else {
        assert(state.received + stream.subrange(0, 0) =~= state.received);
    }
}

proof fn lemma_drain_short(state: BodyState, stream: Seq<u8>)
    requires
        state.wf(),
        stream.len() < state.remaining(),
    ensures
        !drain(state, stream).state.is_complete(),
    decreases state.remaining(),
{
    let n = state.next_read();
    if stream.len() >= n {
        let next = BodyState {
            declared: state.declared,
            received: state.received + stream.subrange(0, n as int),
        };
        lemma_drain_short(next, stream.subrange(n as int, stream.len() as int));
    }
}

/// A stream that holds at least the declared length yields exactly the first
/// `declared` bytes, byte for byte, and nothing past them is taken.
pub proof fn lemma_exact_length_read(declared: nat, stream: Seq<u8>)
    requires
        stream.len() >= declared,
    ensures
        drain(fresh(declared), stream).state.bytes() == Ok::<Seq<u8>, BodyError>(
            stream.subrange(0, declared as int),
        ),
        drain(fresh(declared), stream).consumed == declared,
{
    lemma_drain_full(fresh(declared), stream);
    assert(Seq::<u8>::empty() + stream.subrange(0, declared as int) =~= stream.subrange(
        0,
        declared as int,
    ));
}

/// A stream that closes before the declared length is reached makes every
/// materialization fail with an I/O error; none returns a short result.
pub proof fn lemma_short_stream_fails(declared: nat, stream: Seq<u8>)
    requires
        stream.len() < declared,
    ensures
        drain(fresh(declared), stream).state.bytes() == Err::<Seq<u8>, BodyError>(BodyError::Io),
        drain(fresh(declared), stream).state.text() == Err::<Seq<char>, BodyError>(BodyError::Io),
        drain(fresh(declared), stream).state.plist() == Err::<Option<plist::Value>, BodyError>(
            BodyError::Io,
        ),
{
    lemma_drain_short(fresh(declared), stream);
}

/// An empty body issues no read at all and materializes to no bytes and no
/// text, and to an empty dictionary as a property list.
pub proof fn lemma_empty_body(stream: Seq<u8>)
    ensures
        drain(fresh(0), stream).reads == 0,
        drain(fresh(0), stream).consumed == 0,
        drain(fresh(0), stream).state.bytes() == Ok::<Seq<u8>, BodyError>(Seq::empty()),
        drain(fresh(0), stream).state.text() == Ok::<Seq<char>, BodyError>(Seq::empty()),
        drain(fresh(0), stream).state.plist() == Ok::<Option<plist::Value>, BodyError>(None),
{
    assert(vstd::utf8::valid_utf8(Seq::<u8>::empty()));
    assert(vstd::utf8::decode_utf8(Seq::<u8>::empty()) =~= Seq::<char>::empty());
}

} // verus!

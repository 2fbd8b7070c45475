//! The loop between a source of packets and whoever shows the pictures.

use crate::decode::VideoDecoder;
use crate::media::{DecodedFrame, EncodedPacket, StreamError};
use vstd::prelude::*;

verus! {

/// A source of packets.
pub trait PacketSource {
    /// The source can give `got`, and is `next` then.
    open spec fn can_read(&self, next: &Self, got: Result<EncodedPacket, StreamError>) -> bool {
        true
    }

    fn next_packet(&mut self) -> (r: Result<EncodedPacket, StreamError>)
        ensures
            old(self).can_read(final(self), r),
    ;
}

/// What one turn of the loop gave.
#[derive(Debug)]
pub enum Turn {
    /// The source has ended.
    Ended,
    /// There is no picture to show; the loop goes on.
    Nothing,
    /// There is a picture to show.
    Frame(DecodedFrame),
}

/// What a turn gives for what the decoder gave.
pub open spec fn turn_for(decoded: Result<Option<DecodedFrame>, StreamError>) -> Turn {
    match decoded {
        Ok(Some(f)) => Turn::Frame(f),
        _ => Turn::Nothing,
    }
}

/// What a turn gives for what the decoder gave. A packet that cannot be decoded
/// is left out.
pub fn turn_of(decoded: Result<Option<DecodedFrame>, StreamError>) -> (r: Turn)
    ensures
        r == turn_for(decoded),
{
    match decoded {
        Ok(Some(f)) => Turn::Frame(f),
        _ => Turn::Nothing,
    }
}

/// What a turn gives where the source gave `got`: the decoder is handed the
/// packet, and nothing where there is none.
pub open spec fn is_turn<D: VideoDecoder>(
    got: Result<EncodedPacket, StreamError>,
    before: D,
    after: D,
    r: Turn,
) -> bool {
    match got {
        Err(_) => r is Ended && after == before,
        Ok(packet) => exists|decoded: Result<Option<DecodedFrame>, StreamError>|
            #[trigger] before.can_give(&packet, &after, decoded) && r == turn_for(decoded),
    }
}

/// What comes of what the source gave. An error of the source ends the loop, an
/// error of the decoder does not.
pub fn turn_on<D: VideoDecoder>(
    got: Result<EncodedPacket, StreamError>,
    decoder: &mut D,
) -> (r: Turn)
    requires
        old(decoder).can_take(),
    ensures
        final(decoder).label() == old(decoder).label(),
        is_turn(got, *old(decoder), *final(decoder), r),
{
    match got {
        Err(_) => Turn::Ended,
        Ok(packet) => {
            let decoded = decoder.decode(&packet);
            assert(old(decoder).can_give(&packet, decoder, decoded));
            turn_of(decoded)
        },
    }
}

/// One turn of the loop: a packet is read and decoded. Which packet is for the
/// source to say.
pub fn turn<S: PacketSource, D: VideoDecoder>(source: &mut S, decoder: &mut D) -> (r: Turn)
    requires
        old(decoder).can_take(),
    ensures
        final(decoder).label() == old(decoder).label(),
        exists|got: Result<EncodedPacket, StreamError>|
            #[trigger] old(source).can_read(final(source), got) && is_turn(
                got,
                *old(decoder),
                *final(decoder),
                r,
            ),
{
    let got = source.next_packet();
    assert(old(source).can_read(source, got));
    turn_on(got, decoder)
}

/// A turn of the loop shows a picture exactly where the decoder gave one, and the
/// loop ends exactly where the source does; what the decoder could not decode ends
/// nothing.
pub proof fn a_turn_shows_what_was_decoded<D: VideoDecoder>(
    got: Result<EncodedPacket, StreamError>,
    before: D,
    after: D,
    r: Turn,
    decoded: Result<Option<DecodedFrame>, StreamError>,
)
    ensures
        is_turn(got, before, after, r) ==> (r is Ended <==> got is Err),
        turn_for(decoded) matches Turn::Frame(f) ==> decoded == Ok::<
            Option<DecodedFrame>,
            StreamError,
        >(Some(f)),
        decoded matches Ok(Some(f)) ==> turn_for(decoded) == Turn::Frame(f),
        decoded is Err ==> turn_for(decoded) is Nothing,
        is_turn(got, before, after, r) && got is Err ==> after == before,
{
}

} // verus!

//! The playback session: one run of a song's timeline against a sound
//! generator. The sequencer owns what happens inside it; the library only
//! asks it whether it still plays and for its next samples.

use fbd_sequencer::PlayContext;
use vstd::prelude::*;

verus! {

#[verifier::external_type_specification]
#[verifier::external_body]
pub struct ExPlayContext<'a>(PlayContext<'a>);

/// Whether a session can be run: every call of the sequencer on it returns,
/// now and after any number of such calls, and what it renders depends on
/// nothing but the session. The sequencer trusts the song and follows its
/// commands without a check, so this is a matter of the song's image, which
/// must lead it neither out of the file nor into arithmetic that overflows
/// nor round a repeat without end that holds no note, and of the generator
/// behind the session, which must take what the song tells it and answer by
/// what it holds alone. It stands for no single answer of the sequencer: the
/// caller vouches for it.
pub uninterp spec fn plays_through(session: PlayContext<'_>) -> bool;

/// The samples that a session renders next when it is asked for up to `limit`
/// samples: `limit` of them, or fewer where the song ends before.
pub uninterp spec fn rendering(session: PlayContext<'_>, limit: nat) -> Seq<i16>;

/// The number of times that a session lets its song loop before it ends it,
/// or `None` where it lets it loop for ever.
pub uninterp spec fn loop_limit(session: PlayContext<'_>) -> Option<usize>;

/// Whether any part of a session's song is still running.
pub uninterp spec fn still_playing(session: PlayContext<'_>) -> bool;

/// `PlayContext::is_playing`: whether any part of the song is still running.
#[verifier::external_body]
pub(crate) fn session_is_playing(session: &PlayContext<'_>) -> (playing: bool)
    ensures
        playing == still_playing(*session),
{
    session.is_playing()
}

/// `PlayContext::set_max_loop_count` with `Some(count)`: the session stores
/// the limit and, where the song has looped that often already, ends its
/// parts, which silences their channels on the generator.
#[verifier::external_body]
pub(crate) fn session_limit_loops(session: &mut PlayContext<'_>, count: usize)
    requires
        plays_through(*old(session)),
    ensures
        plays_through(*final(session)),
        loop_limit(*final(session)) == Some(count),
{
    session.set_max_loop_count(Some(count))
}

/// `PlayContext::next_samples_i16` on the first `limit` samples of `block`:
/// the session renders its next samples there, from the start, and returns
/// how many it rendered, which is never more than `limit`. `block` keeps its
/// length and the session its loop limit. The call runs the sequencer over
/// the song and the generator behind the session, so it is for a session that
/// plays through; what such a session renders is `rendering`.
#[verifier::external_body]
pub(crate) fn session_next_samples(
    session: &mut PlayContext<'_>,
    block: &mut [i16],
    limit: usize,
) -> (rendered: usize)
    requires
        plays_through(*old(session)),
        limit <= old(block)@.len(),
    ensures
        rendered <= limit,
        rendered == rendering(*old(session), limit as nat).len(),
        final(block)@.take(rendered as int) == rendering(*old(session), limit as nat),
        final(block)@.len() == old(block)@.len(),
        plays_through(*final(session)),
        loop_limit(*final(session)) == loop_limit(*old(session)),
{
    session.next_samples_i16(&mut block[..limit])
}

} // verus!

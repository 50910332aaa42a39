//! Command dispatch: maps a fixed set of HTTP method + path pairs to the
//! closed set of player commands, and fixes the response code owed for each
//! dispatch outcome.
use vstd::prelude::*;

verus! {

/// A discrete imperative instruction dispatched toward the player subsystem.
#[derive(Clone, Copy, PartialEq, Eq, Structural, Debug)]
pub enum Command {
    Play,
    Prev,
    Next,
    Stop,
    ListAllSongs,
    ListPlaylist,
}

/// The command, if any, that an HTTP request with the given method and path
/// dispatches: exactly the six fixed POST endpoints map to a command.
pub open spec fn spec_dispatch(method: Seq<char>, path: Seq<char>) -> Option<Command> {
    if method == "POST"@ {
        if path == "/api/play"@ {
            Some(Command::Play)
        } else if path == "/api/prev"@ {
            Some(Command::Prev)
        } else if path == "/api/next"@ {
            Some(Command::Next)
        } else if path == "/api/stop"@ {
            Some(Command::Stop)
        } else if path == "/api/allsongs"@ {
            Some(Command::ListAllSongs)
        } else if path == "/api/playlist"@ {
            Some(Command::ListPlaylist)
        } else {
            None
        }
    } else {
        None
    }
}

fn str_eq(a: &str, b: &str) -> (r: bool)
    ensures
        r == (a@ == b@),
{
    let sa: String = a.to_owned();
    let sb: String = b.to_owned();
    sa == sb
}

/// Decide which command an inbound request dispatches, if any.
pub fn dispatch(method: &str, path: &str) -> (r: Option<Command>)
    ensures
        r == spec_dispatch(method@, path@),
{
    if !str_eq(method, "POST") {
        return None;
    }
    if str_eq(path, "/api/play") {
        Some(Command::Play)
    } else if str_eq(path, "/api/prev") {
        Some(Command::Prev)
    } else if str_eq(path, "/api/next") {
        Some(Command::Next)
    } else if str_eq(path, "/api/stop") {
        Some(Command::Stop)
    } else if str_eq(path, "/api/allsongs") {
        Some(Command::ListAllSongs)
    } else if str_eq(path, "/api/playlist") {
        Some(Command::ListPlaylist)
    } else {
        None
    }
}

/// The response code owed to the client once the dispatch outcome is known:
/// an unknown method + path pair is rejected, a command accepted onto the
/// sink answers immediately with success, and a command the sink refused
/// (closed or full) is reported as a service failure.
pub fn command_response(cmd: Option<Command>, enqueued: bool) -> (r: u16)
    ensures
        cmd is None ==> r == 404,
        cmd is Some && enqueued ==> r == 200,
        cmd is Some && !enqueued ==> r == 503,
{
    match cmd {
        None => 404,
        Some(_) => if enqueued {
            200
        } else {
            503
        },
    }
}

/// The commands enqueued when the requests in `reqs` (method + path pairs)
/// are each dispatched once, in order of arrival.
pub open spec fn dispatched_commands(reqs: Seq<(Seq<char>, Seq<char>)>) -> Seq<Command>
    decreases reqs.len(),
{
    if reqs.len() == 0 {
        Seq::empty()
    } else {
        let rest = dispatched_commands(reqs.drop_last());
        match spec_dispatch(reqs.last().0, reqs.last().1) {
            Some(c) => rest.push(c),
            None => rest,
        }
    }
}

/// Requests that all name valid command endpoints enqueue one command each:
/// none is lost and none is duplicated, and the i-th enqueued command is the
/// one the i-th request names, whichever client sent it.
pub proof fn lemma_valid_posts_enqueue_one_each(reqs: Seq<(Seq<char>, Seq<char>)>)
    requires
        forall|i: int| 0 <= i < reqs.len() ==> #[trigger] spec_dispatch(reqs[i].0, reqs[i].1) is Some,
    ensures
        dispatched_commands(reqs).len() == reqs.len(),
        forall|i: int| 0 <= i < reqs.len() ==> #[trigger] dispatched_commands(reqs)[i]
            == spec_dispatch(reqs[i].0, reqs[i].1)->Some_0,
    decreases reqs.len(),
{
    if reqs.len() > 0 {
        lemma_valid_posts_enqueue_one_each(reqs.drop_last());
        assert(reqs.drop_last().len() == reqs.len() - 1);
        assert forall|i: int| 0 <= i < reqs.len() implies #[trigger] dispatched_commands(reqs)[i]
            == spec_dispatch(reqs[i].0, reqs[i].1)->Some_0 by {
            if i < reqs.len() - 1 {
                assert(reqs.drop_last()[i] == reqs[i]);
                assert(dispatched_commands(reqs)[i] == dispatched_commands(reqs.drop_last())[i]);
            } else {
                assert(reqs.last() == reqs[i]);
            }
        }
    }
}

} // verus!

//! What the closing of a window does to its session.

use super::event::{announces, handed_back, process_event};
use crate::event::{Event, Window};
use crate::host::Host;
use crate::manager::data::ManagerData;
use crate::manager::thread::DirectiveThreadMessage;
use vstd::prelude::*;

verus! {

/// Runs when a window of the session closes: the session's handler is told of it.
///
/// Once that handler is done, `event_finished` takes the window off the session's count
/// and, if it was the last one, has the handler told to quit. A session that has no
/// window is told of the closing all the same, and is not told to quit after it.
pub fn window_should_close<P: Host>(mdata: &mut ManagerData<P>, wid: Window) -> (messages: Vec<
    DirectiveThreadMessage<P>,
>)
    ensures
        final(mdata)@ == old(mdata)@.posted(Event::Close(wid)),
        old(mdata)@.waiting ==> messages@.len() == 0,
        !old(mdata)@.waiting ==> announces(messages@, old(mdata)@, Event::Close(wid)),
        handed_back(messages@),
        old(mdata)@.wf() ==> final(mdata)@.wf(),
{
    // run the event handler
    process_event(mdata, Event::Close(wid))
}

} // verus!

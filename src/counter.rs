use vstd::prelude::*;

use crate::decimal::{int_text, push_int};

verus! {

/// The state of the counter page: the number shown on the button, whether a
/// call for that number is still out, and the last reply that was taken in.
///
/// A call is made each time the count changes, with the new count. Counts
/// only grow, so the count a reply was asked for tells whether it answers the
/// latest call; a reply to an earlier call is dropped. While a call is out,
/// the last reply stays on show.
pub struct CounterPage {
    pub count: i32,
    pub loading: bool,
    /// `Ok` with the number the server sent back, or `Err` with the text of
    /// its error.
    pub last: Option<Result<i32, String>>,
}

/// What the page reports of the last reply.
pub open spec fn report_text(last: Option<Result<i32, String>>) -> Seq<char> {
    match last {
        None => "No adding yet"@,
        Some(Ok(v)) => "Server returned Ok("@ + int_text(v as int) + ")"@,
        Some(Err(e)) => "Server returned Err("@ + e@ + ")"@,
    }
}

/// What the loading indicator reads.
pub open spec fn loading_text(loading: bool) -> Seq<char> {
    if loading {
        "Loading..."@
    } else {
        "Idle.."@
    }
}

/// The page after a click on the button.
pub open spec fn clicked(p: CounterPage) -> CounterPage {
    CounterPage { count: (p.count + 1) as i32, loading: true, last: p.last }
}

/// Whether a reply for `count` answers the call that is out.
pub open spec fn answers(p: CounterPage, count: i32) -> bool {
    p.loading && count == p.count
}

/// The page after the reply to the call made for `count` came back.
pub open spec fn received(p: CounterPage, count: i32, reply: Result<i32, String>) -> CounterPage {
    if answers(p, count) {
        CounterPage { count: p.count, loading: false, last: Some(reply) }
    } else {
        p
    }
}

/// The indicator reads `Loading...` from a click on, and goes on reading it
/// while only replies to earlier calls come back; the reply to the call that
/// the click made is shown, and the indicator then reads `Idle..`.
pub proof fn loading_until_answered(
    p: CounterPage,
    stale: i32,
    stale_reply: Result<i32, String>,
    reply: Result<i32, String>,
)
    requires
        p.count < i32::MAX,
        stale <= p.count,
    ensures
        loading_text(clicked(p).loading) == "Loading..."@,
        received(clicked(p), stale, stale_reply) == clicked(p),
        received(clicked(p), clicked(p).count, reply).last == Some(reply),
        loading_text(received(clicked(p), clicked(p).count, reply).loading) == "Idle.."@,
{
}

impl CounterPage {
    /// The page as it opens: the count is zero, and the call for zero is out.
    /// The result is the page and the count to call the server with.
    pub fn new() -> (r: (CounterPage, i32))
        ensures
            r.0.count == 0,
            r.0.loading,
            r.0.last is None,
            r.1 == 0,
    {
        (CounterPage { count: 0, loading: true, last: None }, 0)
    }

    /// A click on the button: the count goes up by one and a call for the new
    /// count goes out. The result is the count to call the server with.
    pub fn click(&mut self) -> (call: i32)
        requires
            old(self).count < i32::MAX,
        ensures
            final(self).count == old(self).count + 1,
            *final(self) == clicked(*old(self)),
            call == final(self).count,
    {
        self.count = self.count + 1;
        self.loading = true;
        self.count
    }

    /// The server's reply to the call made for `count`. It is taken in, and
    /// loading ends, only when it answers the call still out; otherwise the
    /// page stays as it was.
    pub fn receive(&mut self, count: i32, reply: Result<i32, String>)
        ensures
            *final(self) == received(*old(self), count, reply),
    {
        if self.loading && count == self.count {
            self.loading = false;
            self.last = Some(reply);
        }
    }

    /// The line that reports the last reply.
    pub fn report(&self) -> (r: String)
        ensures
            r@ == report_text(self.last),
    {
        match &self.last {
            None => String::from_str("No adding yet"),
            Some(Ok(v)) => {
                let mut s = String::from_str("Server returned Ok(");
                push_int(&mut s, *v);
                s.append(")");
                s
            },
            Some(Err(e)) => {
                let mut s = String::from_str("Server returned Err(");
                s.append(e.as_str());
                s.append(")");
                s
            },
        }
    }

    /// The loading indicator.
    pub fn loading_label(&self) -> (r: &'static str)
        ensures
            r@ == loading_text(self.loading),
    {
        if self.loading {
            "Loading..."
        } else {
            "Idle.."
        }
    }

    /// The text on the button.
    pub fn button_label(&self) -> (r: String)
        ensures
            r@ == "Click Me: "@ + int_text(self.count as int),
    {
        let mut s = String::from_str("Click Me: ");
        push_int(&mut s, self.count);
        s
    }
}

} // verus!

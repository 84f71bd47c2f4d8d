use crate::routes::commands::{answers, Command, CommandView, Reply};
use crate::routes::rows::Rows;
use vstd::prelude::*;

verus! {

/// A handler under way: it says what to do next, and takes what came of it.
pub trait Workflow<T: Rows>: Sized {
    /// The command that this state of the handler gives.
    spec fn current(self) -> CommandView<T>;

    /// The state that follows an answer to that command, or the error that ends the handler.
    spec fn next(self, reply: Reply<T>) -> Result<Self, T::Error>;

    /// An upper bound of the answers that the handler still waits for.
    spec fn remaining(self) -> nat;

    /// What is to be done next.
    fn command(&self) -> (command: Command<'_, T>)
        ensures
            command@ == self.current(),
    ;

    /// Takes what came of the command: the handler goes on, or ends with an error.
    fn step(self, reply: Reply<T>) -> (outcome: Result<Self, T::Error>)
        requires
            answers(reply, self.current()),
        ensures
            outcome == self.next(reply),
    ;

    /// An outside error ends the handler and is handed on as it is.
    proof fn law_failures_are_handed_on(self, error: T::Error)
        requires
            answers(Reply::Failed(error), self.current()),
        ensures
            self.next(Reply::Failed(error)) == Err::<Self, T::Error>(error),
    ;

    /// Only an outside error ends the handler with an error.
    proof fn law_errors_come_from_outside(self, reply: Reply<T>)
        requires
            answers(reply, self.current()),
            !(reply is Failed),
        ensures
            self.next(reply) is Ok,
    ;

    /// The handler waits for no answer exactly when it answers the request.
    proof fn law_end(self)
        ensures
            self.remaining() == 0 <==> self.current() is Respond,
    ;

    /// Every answer brings the handler closer to its end.
    proof fn law_progress(self, reply: Reply<T>)
        requires
            answers(reply, self.current()),
            self.next(reply) is Ok,
        ensures
            self.next(reply)->Ok_0.remaining() < self.remaining(),
    ;
}

/// Where a handler stands once `replies` have come, one after the other: `None` if one of them
/// did not answer the command, or came after an error.
pub open spec fn run_through<T: Rows, W: Workflow<T>>(start: W, replies: Seq<Reply<T>>) -> Option<
    Result<W, T::Error>,
>
    decreases replies.len(),
{
    if replies.len() == 0 {
        Some(Ok(start))
    } else if !answers(replies[0], start.current()) {
        None
    } else {
        match start.next(replies[0]) {
            Ok(after) => run_through(after, replies.drop_first()),
            Err(error) => if replies.len() == 1 {
                Some(Err(error))
            } else {
                None
            },
        }
    }
}

/// The commands that a handler gives while `replies` come, in order.
pub open spec fn transcript<T: Rows, W: Workflow<T>>(start: W, replies: Seq<Reply<T>>) -> Seq<
    CommandView<T>,
>
    decreases replies.len(),
{
    if replies.len() == 0 || !answers(replies[0], start.current()) {
        seq![start.current()]
    } else {
        match start.next(replies[0]) {
            Ok(after) => seq![start.current()] + transcript(after, replies.drop_first()),
            Err(_) => seq![start.current()],
        }
    }
}

/// Every handler comes to an end: it takes no more answers than it says at its start.
pub proof fn law_handlers_end<T: Rows, W: Workflow<T>>(start: W, replies: Seq<Reply<T>>)
    requires
        run_through(start, replies) is Some,
    ensures
        replies.len() <= start.remaining(),
    decreases replies.len(),
{
    if replies.len() > 0 {
        start.law_end();
        if let Ok(after) = start.next(replies[0]) {
            start.law_progress(replies[0]);
            law_handlers_end(after, replies.drop_first());
        }
    }
}

/// An outside error stops a handler where it is: the error is its outcome, and no command is
/// given after the one that failed. What was done before is not undone.
pub proof fn law_errors_stop_handlers<T: Rows, W: Workflow<T>>(
    start: W,
    replies: Seq<Reply<T>>,
    error: T::Error,
)
    requires
        run_through(start, replies) matches Some(Ok(reached)) && !(reached.current() is Respond),
    ensures
        run_through(start, replies.push(Reply::Failed(error))) == Some(
            Err::<W, T::Error>(error),
        ),
        transcript(start, replies.push(Reply::Failed(error))) == transcript(start, replies),
    decreases replies.len(),
{
    let longer = replies.push(Reply::Failed(error));
    if replies.len() == 0 {
        start.law_failures_are_handed_on(error);
    } else {
        assert(longer[0] == replies[0]);
        assert(longer.drop_first() =~= replies.drop_first().push(Reply::Failed(error)));
        law_errors_stop_handlers(start.next(replies[0])->Ok_0, replies.drop_first(), error);
    }
}

} // verus!

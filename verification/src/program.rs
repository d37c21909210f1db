//! Conversations with the outside world, as mathematical objects.
//!
//! Every operation of this library that needs the kernel or a system service is
//! a *conversation*: it asks for one thing, is told how that went, and decides
//! what to ask for next. [`Program`] is the model of a conversation that is
//! still to be held; the executable types that hold one (such as
//! [`Enter`](crate::enter::Enter)) each have a `program` that says what remains
//! of it, and [`Progress`] is what such a type hands back after every reply.

use vstd::prelude::*;

verus! {

/// What remains of a conversation: a result, or a question together with how the
/// conversation goes on for each reply to it.
#[verifier::reject_recursive_types(R)]
pub enum Program<O, R, T> {
    /// The conversation is over, with this result.
    Return(T),
    /// Ask this, then go on as the function says for the reply.
    Ask(O, spec_fn(R) -> Program<O, R, T>),
}

/// Where a conversation stands: waiting for a reply, or finished.
pub enum Progress<M, T> {
    /// The conversation waits for the reply to its current question.
    Pending(M),
    /// The conversation is over, with this result.
    Finished(T),
}

/// Hold the conversation `p`, then go on as `f` says for its result.
pub open spec fn bind<O, R, T, U>(
    p: Program<O, R, T>,
    f: spec_fn(T) -> Program<O, R, U>,
) -> Program<O, R, U>
    decreases p,
{
    match p {
        Program::Return(t) => f(t),
        Program::Ask(o, k) => Program::Ask(o, |r: R| bind(k(r), f)),
    }
}

/// The questions put while `replies` come in, oldest first. The question that is
/// still open when the replies run out is not among them.
pub open spec fn asked<O, R, T>(p: Program<O, R, T>, replies: Seq<R>) -> Seq<O>
    decreases replies.len(),
{
    match p {
        Program::Return(t) => Seq::empty(),
        Program::Ask(o, k) => if replies.len() == 0 {
            Seq::empty()
        } else {
            seq![o] + asked(k(replies[0]), replies.drop_first())
        },
    }
}

/// The result of the conversation, once `replies` have brought it to an end.
pub open spec fn outcome<O, R, T>(p: Program<O, R, T>, replies: Seq<R>) -> Option<T>
    decreases replies.len(),
{
    match p {
        Program::Return(t) => Some(t),
        Program::Ask(o, k) => if replies.len() == 0 {
            None
        } else {
            outcome(k(replies[0]), replies.drop_first())
        },
    }
}

/// Running two conversations in a row is running the first and then, on the
/// replies it left over, the second.
pub proof fn bind_runs_in_sequence<O, R, T, U>(
    p: Program<O, R, T>,
    f: spec_fn(T) -> Program<O, R, U>,
    replies: Seq<R>,
)
    ensures
        asked(p, replies).len() <= replies.len(),
        match outcome(p, replies) {
            Some(t) => {
                let rest = replies.skip(asked(p, replies).len() as int);
                &&& asked(bind(p, f), replies) == asked(p, replies) + asked(f(t), rest)
                &&& outcome(bind(p, f), replies) == outcome(f(t), rest)
            },
            None => {
                &&& asked(bind(p, f), replies) == asked(p, replies)
                &&& outcome(bind(p, f), replies) is None
            },
        },
    decreases replies.len(),
{
    match p {
        Program::Return(t) => {
            assert(replies.skip(0) =~= replies);
            assert(Seq::<O>::empty() + asked(f(t), replies) =~= asked(f(t), replies));
        },
        Program::Ask(o, k) => {
            if replies.len() > 0 {
                let tail = replies.drop_first();
                bind_runs_in_sequence(k(replies[0]), f, tail);
                let inner = asked(k(replies[0]), tail);
                let b = bind(p, f);
                assert(b->Ask_1(replies[0]) == bind(k(replies[0]), f));
                assert(tail.skip(inner.len() as int) =~= replies.skip(
                    (seq![o] + inner).len() as int,
                ));
                if let Some(t) = outcome(p, replies) {
                    let rest = tail.skip(inner.len() as int);
                    assert(seq![o] + (inner + asked(f(t), rest)) =~= (seq![o] + inner) + asked(
                        f(t),
                        rest,
                    ));
                }
            }
        },
    }
}

/// The first reply leads on to the rest of the conversation.
pub proof fn one_reply<O, R, T>(o: O, k: spec_fn(R) -> Program<O, R, T>, replies: Seq<R>)
    requires
        replies.len() > 0,
    ensures
        asked(Program::Ask(o, k), replies) == seq![o] + asked(
            k(replies[0]),
            replies.drop_first(),
        ),
        outcome(Program::Ask(o, k), replies) == outcome(k(replies[0]), replies.drop_first()),
{
}

/// Whether no run of the conversation, whatever the replies, puts a question that
/// is not allowed.
pub open spec fn asks_only<O, R, T>(p: Program<O, R, T>, allowed: spec_fn(O) -> bool) -> bool
    decreases p,
{
    match p {
        Program::Return(t) => true,
        Program::Ask(o, k) => allowed(o) && forall|r: R| asks_only(#[trigger] k(r), allowed),
    }
}

/// Whether no run of the conversation, whatever the replies, has a result that is
/// not allowed.
pub open spec fn yields_only<O, R, T>(p: Program<O, R, T>, allowed: spec_fn(T) -> bool) -> bool
    decreases p,
{
    match p {
        Program::Return(t) => allowed(t),
        Program::Ask(o, k) => forall|r: R| yields_only(#[trigger] k(r), allowed),
    }
}

/// What a conversation asks in a run is among what it may ask.
pub proof fn runs_ask_only<O, R, T>(
    p: Program<O, R, T>,
    allowed: spec_fn(O) -> bool,
    replies: Seq<R>,
    i: int,
)
    requires
        asks_only(p, allowed),
        0 <= i < asked(p, replies).len(),
    ensures
        allowed(asked(p, replies)[i]),
    decreases replies.len(),
{
    if let Program::Ask(o, k) = p {
        if replies.len() > 0 && i > 0 {
            assert(asks_only(k(replies[0]), allowed));
            runs_ask_only(k(replies[0]), allowed, replies.drop_first(), i - 1);
        }
    }
}

/// What a run results in is among what the conversation may result in.
pub proof fn runs_yield_only<O, R, T>(
    p: Program<O, R, T>,
    allowed: spec_fn(T) -> bool,
    replies: Seq<R>,
)
    requires
        yields_only(p, allowed),
    ensures
        outcome(p, replies) matches Some(t) ==> allowed(t),
    decreases replies.len(),
{
    if let Program::Ask(o, k) = p {
        if replies.len() > 0 {
            assert(yields_only(k(replies[0]), allowed));
            runs_yield_only(k(replies[0]), allowed, replies.drop_first());
        }
    }
}

/// Two conversations in a row ask only what both may ask.
pub proof fn bind_asks_only<O, R, T, U>(
    p: Program<O, R, T>,
    f: spec_fn(T) -> Program<O, R, U>,
    allowed: spec_fn(O) -> bool,
)
    requires
        asks_only(p, allowed),
        forall|t: T| asks_only(#[trigger] f(t), allowed),
    ensures
        asks_only(bind(p, f), allowed),
    decreases p,
{
    if let Program::Ask(o, k) = p {
        let b = bind(p, f);
        assert forall|r: R| asks_only(#[trigger] (b->Ask_1)(r), allowed) by {
            assert(asks_only(k(r), allowed));
            bind_asks_only(k(r), f, allowed);
            assert((b->Ask_1)(r) == bind(k(r), f));
        }
    }
}

/// Two conversations in a row result only in what the second may result in.
pub proof fn bind_yields_only<O, R, T, U>(
    p: Program<O, R, T>,
    f: spec_fn(T) -> Program<O, R, U>,
    allowed: spec_fn(U) -> bool,
)
    requires
        forall|t: T| yields_only(#[trigger] f(t), allowed),
    ensures
        yields_only(bind(p, f), allowed),
    decreases p,
{
    match p {
        Program::Return(t) => {
            assert(yields_only(f(t), allowed));
        },
        Program::Ask(o, k) => {
            let b = bind(p, f);
            assert forall|r: R| yields_only(#[trigger] (b->Ask_1)(r), allowed) by {
                bind_yields_only(k(r), f, allowed);
                assert((b->Ask_1)(r) == bind(k(r), f));
            }
        },
    }
}

} // verus!

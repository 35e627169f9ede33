//! Background resolver.
//!
//! This module holds what a resolver that runs in the background decides,
//! apart from the runtime that runs it: the [`Resolve`] capability, the
//! [`Resolver`] service that hands each call to it, and the
//! [`ResolverFuture`] that turns what became of the background task into the
//! answer of the call. The caller drives the task and reports each poll of it
//! as a [`TaskPoll`].

use vstd::prelude::*;

verus! {

/// Resolve the name in the background.
pub trait Resolve {
    /// The name that a resolution is asked for.
    type Name;

    /// The pending handle to the work that a resolution starts.
    type Handle;

    /// Whether a resolution of `name` by this resolver may hand out `handle`
    /// and leave the resolver as `after`. A resolver that says nothing here
    /// promises nothing about its resolutions.
    open spec fn resolves(&self, name: Self::Name, after: &Self, handle: Self::Handle) -> bool {
        true
    }

    /// Perform the name resolution.
    fn resolve(&mut self, name: Self::Name) -> (handle: Self::Handle)
        ensures
            old(self).resolves(name, final(self), handle),
    ;
}

/// Whether an answer is there yet.
#[derive(Debug, PartialEq, Eq)]
pub enum Step<T> {
    /// Not yet: ask again when the background task has moved on.
    Pending,
    /// The answer.
    Ready(T),
}

/// What one poll of the background task found.
#[derive(Debug, PartialEq, Eq)]
pub enum TaskPoll<T, E> {
    /// The task is still running.
    Pending,
    /// The task ran to its end and returned this.
    Returned(Result<T, E>),
    /// The task was cancelled before it ran to its end.
    Cancelled,
    /// The task ended in a fault of its own, neither a result nor a
    /// cancellation.
    Panicked,
}

/// Why a resolution gave no addresses.
#[derive(Debug, PartialEq, Eq)]
pub enum ResolveError<E> {
    /// The resolution itself reported this failure.
    Resolution(E),
    /// The background task was cancelled before it could report anything.
    Interrupted,
}

/// Where a [`ResolverFuture`] stands.
#[derive(Debug, Clone, Copy, PartialEq, Eq, Structural)]
pub enum FutureState {
    /// The background task has not settled.
    Pending,
    /// The task returned, and its result was handed on as it was.
    Succeeded,
    /// The task was cancelled, and the future answered with
    /// [`ResolveError::Interrupted`].
    Cancelled,
    /// The task ended in a fault. The future has no answer for this: the
    /// fault belongs to whoever drives the task.
    Faulted,
}

impl<T, E> TaskPoll<T, E> {
    /// The state that a pending future is in after this poll.
    pub open spec fn state(self) -> FutureState {
        match self {
            TaskPoll::Pending => FutureState::Pending,
            TaskPoll::Returned(_) => FutureState::Succeeded,
            TaskPoll::Cancelled => FutureState::Cancelled,
            TaskPoll::Panicked => FutureState::Faulted,
        }
    }

    /// What a pending future answers to this poll, if it answers at all: a
    /// fault in the task has no answer.
    pub open spec fn answer(self) -> Option<Step<Result<T, ResolveError<E>>>> {
        match self {
            TaskPoll::Pending => Some(Step::Pending),
            TaskPoll::Returned(Ok(addrs)) => Some(Step::Ready(Ok(addrs))),
            TaskPoll::Returned(Err(err)) => Some(Step::Ready(Err(ResolveError::Resolution(err)))),
            TaskPoll::Cancelled => Some(Step::Ready(Err(ResolveError::Interrupted))),
            TaskPoll::Panicked => None,
        }
    }

    /// Whether the task ended in a fault. A future must not be polled with
    /// such a poll; whoever drives the task raises the fault instead.
    pub fn is_fatal(&self) -> (fatal: bool)
        ensures
            fatal == (*self is Panicked),
    {
        match self {
            TaskPoll::Panicked => true,
            _ => false,
        }
    }
}

/// A cancelled task, and no other, is answered with
/// [`ResolveError::Interrupted`]: a failure that the task reported is never
/// turned into an interruption, nor a cancellation into a reported failure.
/// And a cancelled task is answered at once: the future does not stay
/// pending.
pub proof fn lemma_interrupted_iff_cancelled<T, E>(polled: TaskPoll<T, E>)
    ensures
        polled.answer() == Some(
            Step::Ready(Err::<T, ResolveError<E>>(ResolveError::Interrupted)),
        ) <==> polled is Cancelled,
        polled is Cancelled ==> polled.state() == FutureState::Cancelled,
{
}

/// A resolver service.
/// Delegates the actual resolution logic to the generic parameter `T`.
#[derive(Clone)]
pub struct Resolver<T> {
    inner: T,
}

impl<T> Resolver<T> {
    /// The resolution implementation that backs this service.
    pub closed spec fn inner(&self) -> T {
        self.inner
    }

    /// The service that `inner` backs.
    pub closed spec fn backed_by(inner: T) -> Self {
        Resolver { inner }
    }

    /// Create a new [`Resolver`] backed by `inner` resolution implementation.
    pub fn new(inner: T) -> (resolver: Self)
        ensures
            resolver == Self::backed_by(inner),
            resolver.inner() == inner,
    {
        Self { inner }
    }

    /// Consume [`Resolver`] and return the wrapped `T`.
    pub fn into_inner(self) -> (inner: T)
        ensures
            inner == self.inner(),
    {
        self.inner
    }

    /// The wrapped `T`.
    pub fn as_ref(&self) -> (inner: &T)
        ensures
            *inner == self.inner(),
    {
        &self.inner
    }

    /// Whether the service can take a call. It always can: it holds no queue
    /// and no limit, and asking changes nothing.
    pub fn poll_ready(&mut self) -> (step: Step<()>)
        ensures
            step == Step::Ready(()),
            *final(self) == *old(self),
    {
        Step::Ready(())
    }
}

impl<T: Resolve> Resolver<T> {
    /// Starts a resolution of `name`: hands the name to the wrapped resolver
    /// and wraps the handle that comes back in a future that has not settled.
    /// Nothing of the call stays behind in the service but what the wrapped
    /// resolver keeps.
    pub fn call(&mut self, name: T::Name) -> (future: ResolverFuture<T::Handle>)
        ensures
            old(self).inner().resolves(name, &final(self).inner(), future.handle()),
            future.state() == FutureState::Pending,
    {
        let handle = self.inner.resolve(name);
        ResolverFuture { inner: handle, state: Ghost(FutureState::Pending) }
    }
}

/// The opaque resolver future.
///
/// Ready when the underlying background resolution is ready.
/// Holds nothing but the handle to the background task; where it stands is
/// known to the proof alone.
pub struct ResolverFuture<H> {
    inner: H,
    state: Ghost<FutureState>,
}

impl<H> ResolverFuture<H> {
    /// The handle to the background task.
    pub closed spec fn handle(&self) -> H {
        self.inner
    }

    /// Where the future stands.
    pub closed spec fn state(&self) -> FutureState {
        self.state@
    }

    /// The handle to the background task, for whoever drives it. The future
    /// stands where it stood.
    pub fn handle_mut(&mut self) -> (handle: &mut H)
        ensures
            *handle == old(self).handle(),
            final(self).handle() == *final(handle),
            final(self).state() == old(self).state(),
    {
        &mut self.inner
    }

    /// Takes what one poll of the background task found and gives the
    /// future's answer to it.
    ///
    /// While the task runs the future is pending. A result that the task
    /// returned is handed on unchanged, a failure as
    /// [`ResolveError::Resolution`]. A cancelled task gives
    /// [`ResolveError::Interrupted`], and nothing else does. A future that
    /// has answered is not polled again, and a task that ended in a fault is
    /// not reported here at all.
    pub fn poll<T, E>(&mut self, polled: TaskPoll<T, E>) -> (step: Step<Result<T, ResolveError<E>>>)
        requires
            old(self).state() == FutureState::Pending,
            !(polled is Panicked),
        ensures
            polled.answer() == Some(step),
            final(self).state() == polled.state(),
            final(self).handle() == old(self).handle(),
    {
        proof {
            self.state@ = polled.state();
        }
        match polled {
            TaskPoll::Pending => Step::Pending,
            TaskPoll::Returned(Ok(addrs)) => Step::Ready(Ok(addrs)),
            TaskPoll::Returned(Err(err)) => Step::Ready(Err(ResolveError::Resolution(err))),
            TaskPoll::Cancelled => Step::Ready(Err(ResolveError::Interrupted)),
            TaskPoll::Panicked => unreached(),
        }
    }
}

} // verus!

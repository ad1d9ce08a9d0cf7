//! The listener registry: what a session is currently polling.
//!
//! A listener's poll token is the index at which it was appended. Listeners
//! are only ever appended, so a token stays valid for the registry's whole
//! life.

use vstd::prelude::*;
use crate::address::PeerAddr;

verus! {

/// The mathematical content of a [`ListenSet`].
pub struct ListenSetView {
    /// Whether the registry reflects every registration completed since the
    /// last readiness wait began.
    pub fresh: bool,
    /// The bound address of each listener; the index is the listener's token.
    pub listeners: Seq<PeerAddr>,
}

impl ListenSetView {
    /// A registry with no listener, as a new acceptor has it.
    pub open spec fn empty() -> ListenSetView {
        ListenSetView { fresh: true, listeners: Seq::empty() }
    }

    /// The token that the next listener will get.
    pub open spec fn next_token(self) -> int {
        self.listeners.len() as int
    }

    /// The registry at the start of a readiness wait.
    pub open spec fn stale(self) -> ListenSetView {
        ListenSetView { fresh: false, listeners: self.listeners }
    }

    /// The registry after one registration attempt for a listener bound to
    /// `local`: fresh either way, and one listener longer exactly when the
    /// poller took the socket.
    pub open spec fn registered(self, local: PeerAddr, accepted: bool) -> ListenSetView {
        ListenSetView {
            fresh: true,
            listeners: if accepted {
                self.listeners.push(local)
            } else {
                self.listeners
            },
        }
    }

    /// Whether `token` names a listener of this registry.
    pub open spec fn has_token(self, token: int) -> bool {
        0 <= token < self.listeners.len()
    }
}

/// The registry of bound listeners and the freshness flag.
#[derive(Debug)]
pub struct ListenSet {
    fresh: bool,
    listeners: Vec<PeerAddr>,
}

impl View for ListenSet {
    type V = ListenSetView;

    closed spec fn view(&self) -> ListenSetView {
        ListenSetView { fresh: self.fresh, listeners: self.listeners@ }
    }
}

impl ListenSet {
    /// An empty registry. It starts out fresh.
    pub fn new() -> (set: ListenSet)
        ensures
            set@ == ListenSetView::empty(),
    {
        ListenSet { fresh: true, listeners: Vec::new() }
    }

    /// The freshness flag.
    pub fn is_fresh(&self) -> (fresh: bool)
        ensures
            fresh == self@.fresh,
    {
        self.fresh
    }

    /// How many listeners are registered.
    pub fn len(&self) -> (n: usize)
        ensures
            n == self@.listeners.len(),
    {
        self.listeners.len()
    }

    /// The token that the next registered listener gets: the number of
    /// listeners so far.
    pub fn next_token(&self) -> (token: usize)
        ensures
            token == self@.next_token(),
    {
        self.listeners.len()
    }

    /// The bound address of the listener with this token, if there is one.
    pub fn local_addr(&self, token: usize) -> (local: Option<PeerAddr>)
        ensures
            local == if self@.has_token(token as int) {
                Some(self@.listeners[token as int])
            } else {
                None
            },
    {
        if token < self.listeners.len() {
            Some(self.listeners[token])
        } else {
            None
        }
    }

    /// Marks the start of a readiness wait: the registry is stale until the
    /// next registration.
    pub fn begin_wait(&mut self)
        ensures
            final(self)@ == old(self)@.stale(),
    {
        self.fresh = false;
    }

    /// Records the outcome of registering, with the poller, a listener bound
    /// to `local` under the token `next_token()`. The registry becomes fresh
    /// whatever the outcome. If the poller took the socket, the listener is
    /// appended and its token returned, which is never the control token;
    /// if not, the list is unchanged and the poller's error is handed back.
    pub fn register(&mut self, local: PeerAddr, outcome: Result<(), std::io::Error>) -> (r: Result<
        usize,
        std::io::Error,
    >)
        ensures
            final(self)@ == old(self)@.registered(local, outcome is Ok),
            match outcome {
                Ok(_) => r == Ok::<usize, std::io::Error>(old(self)@.next_token() as usize),
                Err(e) => r == Err::<usize, std::io::Error>(e),
            },
            r matches Ok(token) ==> token != crate::TOKEN_NOTIFY && final(self)@.listeners[token as int]
                == local,
    {
        self.fresh = true;
        match outcome {
            Ok(_) => {
                let token = self.listeners.len();
                self.listeners.push(local);
                assert(self.listeners.len() == token + 1);
                Ok(token)
            },
            Err(e) => Err(e),
        }
    }
}

/// One attempt to register a listener: the address it is bound to, and
/// whether the poller took the socket.
pub struct Attempt {
    pub local: PeerAddr,
    pub accepted: bool,
}

/// How many of the attempts succeeded.
pub open spec fn successes(attempts: Seq<Attempt>) -> nat
    decreases attempts.len(),
{
    if attempts.len() == 0 {
        0
    } else {
        successes(attempts.drop_last()) + if attempts.last().accepted {
            1nat
        } else {
            0nat
        }
    }
}

impl ListenSetView {
    /// The registry after these attempts, made one after the other.
    pub open spec fn after_all(self, attempts: Seq<Attempt>) -> ListenSetView
        decreases attempts.len(),
    {
        if attempts.len() == 0 {
            self
        } else {
            self.after_all(attempts.drop_last()).registered(
                attempts.last().local,
                attempts.last().accepted,
            )
        }
    }

    /// The token that attempt `i` of `attempts` is made under, when the
    /// attempts start from this registry.
    pub open spec fn token_of(self, attempts: Seq<Attempt>, i: int) -> int {
        self.after_all(attempts.take(i)).next_token()
    }
}

/// Listeners are only ever appended: after any attempts the registry holds
/// what it held before, at the same tokens, and one more listener for each
/// attempt that succeeded.
pub proof fn lemma_registry_only_grows(set: ListenSetView, attempts: Seq<Attempt>)
    ensures
        set.after_all(attempts).listeners.len() == set.listeners.len() + successes(attempts),
        set.after_all(attempts).listeners.take(set.listeners.len() as int) == set.listeners,
        forall|token: int| set.has_token(token) ==> set.after_all(attempts).has_token(token),
    decreases attempts.len(),
{
    if attempts.len() > 0 {
        lemma_registry_only_grows(set, attempts.drop_last());
    }
}

/// Starting from an empty registry, the listener list is as long as the
/// number of attempts that succeeded, and an attempt is made under the token
/// that equals the number of successes before it: the first success gets 0,
/// the second 1, and so on.
pub proof fn lemma_tokens_are_sequential(attempts: Seq<Attempt>)
    ensures
        ListenSetView::empty().after_all(attempts).listeners.len() == successes(attempts),
        forall|i: int|
            0 <= i < attempts.len() ==> #[trigger] ListenSetView::empty().token_of(attempts, i)
                == successes(attempts.take(i)),
{
    lemma_registry_only_grows(ListenSetView::empty(), attempts);
    assert forall|i: int| 0 <= i < attempts.len() implies #[trigger] ListenSetView::empty().token_of(
        attempts,
        i,
    ) == successes(attempts.take(i)) by {
        lemma_registry_only_grows(ListenSetView::empty(), attempts.take(i));
    }
}

/// The number of successes grows with the attempts, by one over an attempt
/// that succeeds.
pub proof fn lemma_successes_grow(attempts: Seq<Attempt>, i: int, j: int)
    requires
        0 <= i <= j <= attempts.len(),
    ensures
        successes(attempts.take(i)) <= successes(attempts.take(j)),
        i < j && attempts[i].accepted ==> successes(attempts.take(i)) < successes(attempts.take(j)),
    decreases j - i,
{
    if i < j {
        assert(attempts.take(j).drop_last() =~= attempts.take(j - 1));
        lemma_successes_grow(attempts, i, j - 1);
    }
}

/// However the calls of several threads interleave, the registry lock puts
/// their attempts in some order. Whatever that order, the tokens of the
/// attempts that succeeded are all different, and they are exactly the
/// numbers below the length of the listener list: none is skipped and none
/// is given twice.
pub proof fn lemma_tokens_unique_and_contiguous(attempts: Seq<Attempt>)
    ensures
        forall|i: int, j: int|
            0 <= i < j < attempts.len() && attempts[i].accepted && attempts[j].accepted
                ==> #[trigger] ListenSetView::empty().token_of(attempts, i)
                != #[trigger] ListenSetView::empty().token_of(attempts, j),
        forall|token: int|
            #![trigger ListenSetView::empty().after_all(attempts).has_token(token)]
            ListenSetView::empty().after_all(attempts).has_token(token) <==> exists|i: int|
                0 <= i < attempts.len() && attempts[i].accepted
                    && #[trigger] ListenSetView::empty().token_of(attempts, i) == token,
    decreases attempts.len(),
{
    let empty = ListenSetView::empty();
    lemma_tokens_are_sequential(attempts);
    assert forall|i: int, j: int|
        0 <= i < j < attempts.len() && attempts[i].accepted && attempts[j].accepted implies #[trigger] empty.token_of(
        attempts,
        i,
    ) != #[trigger] empty.token_of(attempts, j) by {
        lemma_successes_grow(attempts, i, j);
    }
    assert forall|token: int|
        #![trigger empty.after_all(attempts).has_token(token)]
        empty.after_all(attempts).has_token(token) <==> exists|i: int|
            0 <= i < attempts.len() && attempts[i].accepted && #[trigger] empty.token_of(attempts, i)
                == token by {
        if empty.after_all(attempts).has_token(token) {
            lemma_token_was_assigned(attempts, token);
        }
        if exists|i: int|
            0 <= i < attempts.len() && attempts[i].accepted && #[trigger] empty.token_of(attempts, i)
                == token {
            let i = choose|i: int|
                0 <= i < attempts.len() && attempts[i].accepted && #[trigger] empty.token_of(
                    attempts,
                    i,
                ) == token;
            lemma_successes_grow(attempts, i, attempts.len() as int);
            assert(attempts.take(attempts.len() as int) =~= attempts);
        }
    }
}

/// Every number below the count of successes is the count of successes
/// before some attempt that succeeded.
proof fn lemma_token_was_assigned(attempts: Seq<Attempt>, token: int)
    requires
        0 <= token < successes(attempts),
    ensures
        exists|i: int|
            0 <= i < attempts.len() && attempts[i].accepted && #[trigger] ListenSetView::empty().token_of(
                attempts,
                i,
            ) == token,
    decreases attempts.len(),
{
    let empty = ListenSetView::empty();
    let n = attempts.len() as int;
    let before = attempts.drop_last();
    if attempts.last().accepted && token == successes(before) {
        lemma_tokens_are_sequential(attempts);
        assert(empty.token_of(attempts, n - 1) == token);
    } else {
        lemma_token_was_assigned(before, token);
        let i = choose|i: int|
            0 <= i < before.len() && before[i].accepted && #[trigger] empty.token_of(before, i)
                == token;
        assert(before.take(i) =~= attempts.take(i));
        assert(empty.token_of(attempts, i) == token);
    }
}

} // verus!

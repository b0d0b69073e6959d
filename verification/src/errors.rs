//! The sign-up workflow's error taxonomy and its cause-chain formatting.

use vstd::prelude::*;
use vstd::string::StringExecFns;

verus! {

/// A datastore failure while storing a confirmation token; the string is
/// the datastore's own description of the cause. Kept apart from the other
/// store failures because callers answer it differently in some paths.
#[derive(Debug)]
pub struct StoreTokenError(pub String);

/// Everything that can go wrong while handling one sign-up attempt.
/// Each variant carries the description of its underlying cause.
#[derive(Debug)]
pub enum SubscribeError {
    ValidationError(String),
    StoreTokenError(StoreTokenError),
    SendEmailError(String),
    PoolError(String),
    InsertSubscriberError(String),
    TransactionCommitError(String),
}

impl StoreTokenError {
    /// The one-line description of this failure.
    pub open spec fn spec_message(&self) -> Seq<char> {
        "A database error was encountered while trying to store a subscription token"@
    }

    /// The Display lines of this error and its causes, this error first.
    pub open spec fn spec_chain(&self) -> Seq<Seq<char>> {
        seq![self.spec_message(), self.0@]
    }

    pub fn message(&self) -> (r: String)
        ensures
            r@ == self.spec_message(),
    {
        String::from_str("A database error was encountered while trying to store a subscription token")
    }

    /// The cause underlying this error, mirroring a source chain.
    pub fn source_message(&self) -> (r: Option<String>)
        ensures
            r matches Some(m) && m@ == self.0@,
    {
        Some(self.0.clone())
    }
}

impl SubscribeError {
    /// The one-line description of each failure.
    pub open spec fn spec_message(&self) -> Seq<char> {
        match self {
            SubscribeError::ValidationError(e) => e@,
            SubscribeError::StoreTokenError(_) => "failed to store the confirmation token for a new subscriber"@,
            SubscribeError::SendEmailError(_) => "Failed to send a confirmation email"@,
            SubscribeError::PoolError(_) => "Failed to acquire a postgres connection from the pool"@,
            SubscribeError::InsertSubscriberError(_) => "Failed to insert new subscriber into the database"@,
            SubscribeError::TransactionCommitError(_) => "Failed to commit SQL transaction to store new subscriber"@,
        }
    }

    /// The Display lines of this error and its causes, this error first.
    pub open spec fn spec_chain(&self) -> Seq<Seq<char>> {
        match self {
            SubscribeError::ValidationError(e) => seq![e@],
            SubscribeError::StoreTokenError(st) => seq![self.spec_message()].add(st.spec_chain()),
            SubscribeError::SendEmailError(c) => seq![self.spec_message(), c@],
            SubscribeError::PoolError(c) => seq![self.spec_message(), c@],
            SubscribeError::InsertSubscriberError(c) => seq![self.spec_message(), c@],
            SubscribeError::TransactionCommitError(c) => seq![self.spec_message(), c@],
        }
    }

    /// The HTTP status each failure maps to: a validation failure is the
    /// client's (400), everything else is the server's (500).
    pub open spec fn spec_status_code(&self) -> u16 {
        if self is ValidationError {
            400
        } else {
            500
        }
    }

    pub fn status_code(&self) -> (r: u16)
        ensures
            r == self.spec_status_code(),
    {
        match self {
            SubscribeError::ValidationError(_) => 400,
            _ => 500,
        }
    }

    pub fn message(&self) -> (r: String)
        ensures
            r@ == self.spec_message(),
    {
        match self {
            SubscribeError::ValidationError(e) => e.clone(),
            SubscribeError::StoreTokenError(_) => String::from_str("failed to store the confirmation token for a new subscriber"),
            SubscribeError::SendEmailError(_) => String::from_str("Failed to send a confirmation email"),
            SubscribeError::PoolError(_) => String::from_str("Failed to acquire a postgres connection from the pool"),
            SubscribeError::InsertSubscriberError(_) => String::from_str("Failed to insert new subscriber into the database"),
            SubscribeError::TransactionCommitError(_) => String::from_str("Failed to commit SQL transaction to store new subscriber"),
        }
    }

    /// The cause one step below this error, mirroring a source chain;
    /// a validation failure has none.
    pub fn source_message(&self) -> (r: Option<String>)
        ensures
            self is ValidationError <==> r is None,
            r matches Some(m) ==> m@ == self.spec_chain()[1],
    {
        match self {
            SubscribeError::ValidationError(_) => None,
            SubscribeError::StoreTokenError(st) => Some(st.message()),
            SubscribeError::SendEmailError(c) => Some(c.clone()),
            SubscribeError::PoolError(c) => Some(c.clone()),
            SubscribeError::InsertSubscriberError(c) => Some(c.clone()),
            SubscribeError::TransactionCommitError(c) => Some(c.clone()),
        }
    }

    /// The Display lines of this error and its causes, this error first.
    pub fn chain_messages(&self) -> (r: Vec<String>)
        ensures
            r.deep_view() == self.spec_chain(),
    {
        let mut r: Vec<String> = Vec::new();
        r.push(self.message());
        match self {
            SubscribeError::ValidationError(_) => (),
            SubscribeError::StoreTokenError(st) => {
                r.push(st.message());
                r.push(st.0.clone());
            },
            SubscribeError::SendEmailError(c) => r.push(c.clone()),
            SubscribeError::PoolError(c) => r.push(c.clone()),
            SubscribeError::InsertSubscriberError(c) => r.push(c.clone()),
            SubscribeError::TransactionCommitError(c) => r.push(c.clone()),
        }
        proof {
            assert(r.deep_view() =~= self.spec_chain());
        }
        r
    }

    /// This error rendered with its full cause chain, one cause per line.
    pub fn debug_message(&self) -> (r: String)
        ensures
            r@ == chain_fmt(self.spec_chain()),
    {
        let chain = self.chain_messages();
        error_chain_fmt(&chain)
    }
}

impl From<String> for SubscribeError {
    /// A raw validation message becomes the validation failure.
    fn from(e: String) -> (r: SubscribeError) {
        SubscribeError::ValidationError(e)
    }
}

impl vstd::std_specs::convert::FromSpecImpl<String> for SubscribeError {
    open spec fn obeys_from_spec() -> bool {
        true
    }

    open spec fn from_spec(v: String) -> SubscribeError {
        SubscribeError::ValidationError(v)
    }
}

impl From<StoreTokenError> for SubscribeError {
    /// A token-store failure keeps its own variant, distinguishable from
    /// the other store failures.
    fn from(e: StoreTokenError) -> (r: SubscribeError) {
        SubscribeError::StoreTokenError(e)
    }
}

impl vstd::std_specs::convert::FromSpecImpl<StoreTokenError> for SubscribeError {
    open spec fn obeys_from_spec() -> bool {
        true
    }

    open spec fn from_spec(v: StoreTokenError) -> SubscribeError {
        SubscribeError::StoreTokenError(v)
    }
}

/// The lines after the first of a rendered cause chain: each cause on its
/// own indented `Caused by:` line.
pub open spec fn chain_causes(causes: Seq<Seq<char>>) -> Seq<char>
    decreases causes.len(),
{
    if causes.len() == 0 {
        Seq::empty()
    } else {
        "Caused by:\n\t"@ + causes[0] + chain_causes(causes.drop_first())
    }
}

/// A full rendered cause chain: the top message, a blank line, then the
/// causes in order.
pub open spec fn chain_fmt(msgs: Seq<Seq<char>>) -> Seq<char> {
    if msgs.len() == 0 {
        Seq::empty()
    } else {
        msgs[0] + "\n\n"@ + chain_causes(msgs.drop_first())
    }
}

proof fn lemma_chain_causes_push(causes: Seq<Seq<char>>, x: Seq<char>)
    ensures
        chain_causes(causes.push(x)) == chain_causes(causes) + "Caused by:\n\t"@ + x,
    decreases causes.len(),
{
    if causes.len() == 0 {
        let l = causes.push(x);
        assert(l[0] == x);
        assert(l.drop_first() =~= Seq::<Seq<char>>::empty());
        assert(chain_causes(l.drop_first()) == Seq::<char>::empty());
        assert(chain_causes(causes) == Seq::<char>::empty());
        assert(chain_causes(l) == "Caused by:\n\t"@ + x + chain_causes(l.drop_first()));
        assert(chain_causes(l) =~= chain_causes(causes) + "Caused by:\n\t"@ + x);
    } else {
        let l = causes.push(x);
        let pre = "Caused by:\n\t"@;
        assert(l[0] == causes[0]);
        assert(l.drop_first() =~= causes.drop_first().push(x));
        lemma_chain_causes_push(causes.drop_first(), x);
        assert(chain_causes(l) == pre + causes[0] + (chain_causes(causes.drop_first()) + pre + x));
        assert(pre + causes[0] + (chain_causes(causes.drop_first()) + pre + x) =~= chain_causes(
            causes,
        ) + pre + x);
    }
}

/// Renders a cause chain: the first message, a blank line, then each
/// further message on its own `Caused by:` line.
pub fn error_chain_fmt(chain: &Vec<String>) -> (r: String)
    ensures
        r@ == chain_fmt(chain.deep_view()),
{
    if chain.len() == 0 {
        return String::new();
    }
    let mut r = chain[0].clone();
    r.append("\n\n");
    let mut i: usize = 1;
    while i < chain.len()
        invariant
            1 <= i <= chain.len(),
            chain.deep_view().len() == chain@.len(),
            r@ == chain.deep_view()[0] + "\n\n"@ + chain_causes(
                chain.deep_view().subrange(1, i as int),
            ),
        decreases chain.len() - i,
    {
        r.append("Caused by:\n\t");
        r.append(chain[i].as_str());
        proof {
            let dv = chain.deep_view();
            lemma_chain_causes_push(dv.subrange(1, i as int), dv[i as int]);
            assert(dv.subrange(1, i as int + 1) =~= dv.subrange(1, i as int).push(dv[i as int]));
            assert(r@ =~= dv[0] + "\n\n"@ + chain_causes(dv.subrange(1, i as int + 1)));
        }
        i += 1;
    }
    proof {
        let dv = chain.deep_view();
        assert(dv.drop_first() =~= dv.subrange(1, chain@.len() as int));
    }
    r
}

} // verus!

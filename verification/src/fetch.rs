use vstd::prelude::*;
use vstd::string::*;

verus! {

/// The HTTP status of a successful answer.
pub const STATUS_OK: u16 = 200;

/// At most this many further requests are made for one picture.
pub const MAX_REDIRECTS: u32 = 5;

/// The address of a picture, with the API key appended.
pub fn image_request_url(url: &str, api_key: &str) -> (r: String)
    ensures
        r@ == url@ + api_key@,
{
    let mut s = url.to_owned();
    s.append(api_key);
    s
}

/// What to do with an answer while fetching a picture.
#[derive(PartialEq, Eq, Structural, Debug, Clone, Copy)]
pub enum FetchStep {
    /// Request the address in the answer's `Location` header.
    FollowRedirect,
    /// Keep this answer's body as the picture.
    Keep,
}

/// Whether an answer is followed, given how many have been followed before.
pub open spec fn spec_follows(retries: nat, status: u16) -> bool {
    status != STATUS_OK && retries < MAX_REDIRECTS
}

/// How many answers of `statuses` are followed, one after the other,
/// starting after `retries` followed ones.
pub open spec fn follow_count(retries: nat, statuses: Seq<u16>) -> nat
    decreases statuses.len(),
{
    if statuses.len() == 0 {
        0
    } else if spec_follows(retries, statuses[0]) {
        1 + follow_count(retries + 1, statuses.drop_first())
    } else {
        follow_count(retries, statuses.drop_first())
    }
}

/// The redirect policy for one picture: answers that are not `200` are
/// followed, at most five times.
pub struct RedirectPolicy {
    retries: u32,
}

impl View for RedirectPolicy {
    type V = nat;

    /// The number of answers followed so far.
    closed spec fn view(&self) -> nat {
        self.retries as nat
    }
}

impl RedirectPolicy {
    /// Never more than five answers are followed.
    #[verifier::type_invariant]
    spec fn within_limit(self) -> bool {
        self.retries <= MAX_REDIRECTS
    }

    /// A policy for a new picture: nothing followed yet.
    pub fn new() -> (r: Self)
        ensures
            r@ == 0,
    {
        RedirectPolicy { retries: 0 }
    }

    /// The number of answers followed so far.
    pub fn retries(&self) -> (r: u32)
        ensures
            r == self@,
            r <= MAX_REDIRECTS,
    {
        proof {
            use_type_invariant(self);
        }
        self.retries
    }

    /// Decides on the answer with `status`: follow it (and count it) when it
    /// is not `200` and fewer than five have been followed, else keep it.
    pub fn step(&mut self, status: u16) -> (r: FetchStep)
        ensures
            old(self)@ <= MAX_REDIRECTS,
            final(self)@ <= MAX_REDIRECTS,
            (r == FetchStep::FollowRedirect) == spec_follows(old(self)@, status),
            r == FetchStep::FollowRedirect ==> final(self)@ == old(self)@ + 1,
            r == FetchStep::Keep ==> final(self)@ == old(self)@,
    {
        proof {
            use_type_invariant(&*self);
        }
        if status != STATUS_OK && self.retries < MAX_REDIRECTS {
            self.retries = self.retries + 1;
            FetchStep::FollowRedirect
        } else {
            FetchStep::Keep
        }
    }
}

/// Whatever the server answers, no more than five answers are followed for
/// one picture: from `retries` followed ones, at most `5 - retries` more.
pub proof fn lemma_follow_count_bounded(retries: nat, statuses: Seq<u16>)
    requires
        retries <= MAX_REDIRECTS,
    ensures
        follow_count(retries, statuses) + retries <= MAX_REDIRECTS,
    decreases statuses.len(),
{
    if statuses.len() > 0 {
        if spec_follows(retries, statuses[0]) {
            lemma_follow_count_bounded(retries + 1, statuses.drop_first());
        } else {
            lemma_follow_count_bounded(retries, statuses.drop_first());
        }
    }
}

/// An answer of `200` is always kept, however many were followed.
pub proof fn lemma_ok_is_kept(retries: nat)
    ensures
        !spec_follows(retries, STATUS_OK),
{
}


/// Any answer other than 200 is followed while fewer than five have been
/// followed, whatever its status (301, 302, 404, ...); a 200 answer, or
/// any answer after five followed ones, is kept.
pub proof fn lemma_follows_exactly(retries: nat, status: u16)
    ensures
        (status != 200 && retries < 5) ==> spec_follows(retries, status),
        status == 200 ==> !spec_follows(retries, status),
        retries >= 5 ==> !spec_follows(retries, status),
{
}

} // verus!

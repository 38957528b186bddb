//! The values that the feed service hands to its callers.

use vstd::prelude::*;

verus! {

/// The body of a reply that reports a failure or a bare confirmation.
#[derive(Clone, Debug, PartialEq, Eq)]
pub struct Error {
    pub error: bool,
    pub message: String,
}

/// What an [`Error`] is to the contracts.
pub struct ErrorView {
    pub error: bool,
    pub message: Seq<char>,
}

impl DeepView for Error {
    type V = ErrorView;

    open spec fn deep_view(&self) -> ErrorView {
        ErrorView { error: self.error, message: self.message@ }
    }
}

impl Error {
    /// A failure report that carries `message`.
    pub fn failure(message: &str) -> (report: Error)
        ensures
            report.deep_view() == (ErrorView { error: true, message: message@ }),
    {
        Error { error: true, message: message.to_owned() }
    }

    /// A confirmation that carries `message`.
    pub fn confirmation(message: &str) -> (report: Error)
        ensures
            report.deep_view() == (ErrorView { error: false, message: message@ }),
    {
        Error { error: false, message: message.to_owned() }
    }
}

/// One ranked item of a feed.
#[derive(Clone, Debug, PartialEq, Eq)]
pub struct Post {
    pub id: String,
    pub description: String,
    pub author: String,
    pub hash: Vec<String>,
    pub like: u32,
}

/// What a [`Post`] is to the contracts.
pub struct PostView {
    pub id: Seq<char>,
    pub description: Seq<char>,
    pub author: Seq<char>,
    pub hash: Seq<Seq<char>>,
    pub like: u32,
}

impl DeepView for Post {
    type V = PostView;

    open spec fn deep_view(&self) -> PostView {
        PostView {
            id: self.id@,
            description: self.description@,
            author: self.author@,
            hash: self.hash.deep_view(),
            like: self.like,
        }
    }
}

/// The claims of a verified identity token.
#[derive(Clone, Debug, PartialEq, Eq)]
pub struct Claims {
    pub sub: String,
    pub scope: Vec<String>,
    pub exp: u64,
    iss: String,
    iat: u64,
}

/// What a [`Claims`] value is to the contracts.
pub struct ClaimsView {
    pub sub: Seq<char>,
    pub scope: Seq<Seq<char>>,
    pub exp: u64,
    pub iss: Seq<char>,
    pub iat: u64,
}

impl DeepView for Claims {
    type V = ClaimsView;

    closed spec fn deep_view(&self) -> ClaimsView {
        ClaimsView {
            sub: self.sub@,
            scope: self.scope.deep_view(),
            exp: self.exp,
            iss: self.iss@,
            iat: self.iat,
        }
    }
}

impl Post {
    /// A copy of the post.
    pub fn copy(&self) -> (copy: Post)
        ensures
            copy.deep_view() == self.deep_view(),
    {
        Post {
            id: self.id.clone(),
            description: self.description.clone(),
            author: self.author.clone(),
            hash: crate::row::copy_texts(&self.hash),
            like: self.like,
        }
    }
}

/// A copy of `posts`.
pub fn copy_posts(posts: &Vec<Post>) -> (copy: Vec<Post>)
    ensures
        copy.deep_view() == posts.deep_view(),
{
    let mut copy: Vec<Post> = Vec::new();
    let mut i: usize = 0;
    while i < posts.len()
        invariant
            i <= posts.len(),
            copy.len() == i,
            forall|k: int| 0 <= k < i ==> (#[trigger] copy[k]).deep_view() == posts[k].deep_view(),
        decreases posts.len() - i,
    {
        copy.push(posts[i].copy());
        i = i + 1;
    }
    assert(copy.deep_view() =~= posts.deep_view());
    copy
}

impl Claims {
    /// The claims of a token issued by `iss` at `iat` for the subject `sub`.
    pub fn new(sub: String, scope: Vec<String>, exp: u64, iss: String, iat: u64) -> (claims: Claims)
        ensures
            claims.deep_view() == (ClaimsView {
                sub: sub@,
                scope: scope.deep_view(),
                exp,
                iss: iss@,
                iat,
            }),
    {
        Claims { sub, scope, exp, iss, iat }
    }

    /// Whom the token speaks for.
    pub fn subject(&self) -> (sub: &String)
        ensures
            sub@ == self.deep_view().sub,
    {
        &self.sub
    }

    /// What the token allows.
    pub fn scopes(&self) -> (scope: &Vec<String>)
        ensures
            scope.deep_view() == self.deep_view().scope,
    {
        &self.scope
    }

    /// When the token expires, in seconds since the Unix epoch.
    pub fn expires_at(&self) -> (exp: u64)
        ensures
            exp == self.deep_view().exp,
    {
        self.exp
    }

    /// Who issued the token.
    pub fn issuer(&self) -> (iss: &String)
        ensures
            iss@ == self.deep_view().iss,
    {
        &self.iss
    }

    /// When the token was issued, in seconds since the Unix epoch.
    pub fn issued_at(&self) -> (iat: u64)
        ensures
            iat == self.deep_view().iat,
    {
        self.iat
    }
}

} // verus!

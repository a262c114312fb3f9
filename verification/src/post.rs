//! A post: a finished message, kept as it was accepted.

use vstd::prelude::*;

verus! {

/// What a post holds, as plain mathematical values.
pub struct PostView {
    pub id: u128,
    pub name: Seq<char>,
    pub subject: Seq<char>,
    pub body: Seq<char>,
    pub image_url: Option<Seq<char>>,
}

impl PostView {
    /// Whether none of the three required texts is empty.
    pub open spec fn complete(self) -> bool {
        self.name.len() > 0 && self.subject.len() > 0 && self.body.len() > 0
    }
}

/// A message on the board. A post is complete from the moment it exists: its
/// name, subject and body are never empty.
pub struct Post {
    id: u128,
    name: String,
    subject: String,
    body: String,
    image_url: Option<String>,
}

impl View for Post {
    type V = PostView;

    closed spec fn view(&self) -> PostView {
        PostView {
            id: self.id,
            name: self.name@,
            subject: self.subject@,
            body: self.body@,
            image_url: match self.image_url {
                Some(url) => Some(url@),
                None => None,
            },
        }
    }
}

impl Post {
    #[verifier::type_invariant]
    spec fn is_complete(self) -> bool {
        self@.complete()
    }

    /// Makes a post of the given parts, unless one of the three texts is
    /// empty.
    pub fn new(
        id: u128,
        name: String,
        subject: String,
        body: String,
        image_url: Option<String>,
    ) -> (made: Option<Post>)
        ensures
            made is Some <==> name@.len() > 0 && subject@.len() > 0 && body@.len() > 0,
            made is Some ==> made->0@ == (PostView {
                id,
                name: name@,
                subject: subject@,
                body: body@,
                image_url: match image_url {
                    Some(url) => Some(url@),
                    None => None,
                },
            }),
    {
        if name.as_str().is_empty() || subject.as_str().is_empty() || body.as_str().is_empty() {
            None
        } else {
            Some(Post { id, name, subject, body, image_url })
        }
    }

    /// The identifier that the board gave the post.
    pub fn id(&self) -> (id: u128)
        ensures
            id == self@.id,
    {
        self.id
    }

    /// The author's name.
    pub fn name(&self) -> (name: &str)
        ensures
            name@ == self@.name,
            name@.len() > 0,
    {
        proof {
            use_type_invariant(self);
        }
        self.name.as_str()
    }

    /// The subject line.
    pub fn subject(&self) -> (subject: &str)
        ensures
            subject@ == self@.subject,
            subject@.len() > 0,
    {
        proof {
            use_type_invariant(self);
        }
        self.subject.as_str()
    }

    /// The message itself.
    pub fn body(&self) -> (body: &str)
        ensures
            body@ == self@.body,
            body@.len() > 0,
    {
        proof {
            use_type_invariant(self);
        }
        self.body.as_str()
    }

    /// The public path of the post's image, if it has one.
    pub fn image_url(&self) -> (url: Option<&str>)
        ensures
            url is Some <==> self@.image_url is Some,
            url is Some ==> url->0@ == self@.image_url->0,
    {
        match &self.image_url {
            Some(url) => Some(url.as_str()),
            None => None,
        }
    }
}

impl Clone for Post {
    fn clone(&self) -> (copy: Post)
        ensures
            copy@ == self@,
            copy@.complete(),
    {
        proof {
            use_type_invariant(self);
        }
        let image_url = match &self.image_url {
            Some(url) => Some(url.clone()),
            None => None,
        };
        Post {
            id: self.id,
            name: self.name.clone(),
            subject: self.subject.clone(),
            body: self.body.clone(),
            image_url,
        }
    }
}

} // verus!

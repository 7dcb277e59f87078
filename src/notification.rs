use vstd::prelude::*;
use vstd::string::StringSliceAdditionalSpecFns;

verus! {

/// A desktop notification, built step by step and then handed to the
/// platform's notification service.
#[derive(Debug, Default)]
pub struct Notification {
    body: Option<String>,
    title: Option<String>,
    icon: Option<String>,
    identifier: String,
}

/// The text of an optional string.
pub open spec fn text_of(s: Option<String>) -> Option<Seq<char>> {
    match s {
        Some(t) => Some(t@),
        None => None,
    }
}

/// The bytes of `t a r g e t`.
pub open spec fn target_word() -> Seq<u8> {
    seq![116u8, 97u8, 114u8, 103u8, 101u8, 116u8]
}

/// The bytes of `d e b u g`.
pub open spec fn debug_word() -> Seq<u8> {
    seq![100u8, 101u8, 98u8, 117u8, 103u8]
}

/// The bytes of `r e l e a s e`.
pub open spec fn release_word() -> Seq<u8> {
    seq![114u8, 101u8, 108u8, 101u8, 97u8, 115u8, 101u8]
}

/// `<sep>target<sep><profile>`: the tail of a directory that cargo builds into.
pub open spec fn build_dir_tail(sep: u8, profile: Seq<u8>) -> Seq<u8> {
    seq![sep] + target_word() + seq![sep] + profile
}

pub open spec fn ends_with(s: Seq<u8>, tail: Seq<u8>) -> bool {
    tail.len() <= s.len() && s.subrange(s.len() - tail.len(), s.len() as int) == tail
}

/// Whether `dir` is a debug or release directory of an unpackaged build.
pub open spec fn is_build_dir(dir: Seq<u8>, sep: u8) -> bool {
    ends_with(dir, build_dir_tail(sep, debug_word())) || ends_with(
        dir,
        build_dir_tail(sep, release_word()),
    )
}

fn bytes_end_with(s: &[u8], tail: &Vec<u8>) -> (r: bool)
    ensures
        r == ends_with(s@, tail@),
{
    let n: usize = s.len();
    if tail.len() > n {
        return false;
    }
    let off = n - tail.len();
    let mut i: usize = 0;
    while i < tail.len()
        invariant
            n == s@.len(),
            tail@.len() <= s@.len(),
            off == s@.len() - tail@.len(),
            0 <= i <= tail@.len(),
            forall|k: int| 0 <= k < i ==> s@[off + k] == tail@[k],
        decreases tail@.len() - i,
    {
        if s[off + i] != tail[i] {
            assert(s@.subrange(off as int, s@.len() as int)[i as int] != tail@[i as int]);
            return false;
        }
        i += 1;
    }
    assert(s@.subrange(off as int, s@.len() as int) =~= tail@);
    true
}

fn build_tail(sep: u8, release: bool) -> (r: Vec<u8>)
    ensures
        r@ == build_dir_tail(sep, if release { release_word() } else { debug_word() }),
{
    let mut t: Vec<u8> = Vec::new();
    t.push(sep);
    t.push(116u8);
    t.push(97u8);
    t.push(114u8);
    t.push(103u8);
    t.push(101u8);
    t.push(116u8);
    t.push(sep);
    if release {
        t.push(114u8);
        t.push(101u8);
        t.push(108u8);
        t.push(101u8);
        t.push(97u8);
        t.push(115u8);
        t.push(101u8);
    } else {
        t.push(100u8);
        t.push(101u8);
        t.push(98u8);
        t.push(117u8);
        t.push(103u8);
    }
    assert(t@ =~= build_dir_tail(sep, if release { release_word() } else { debug_word() }));
    t
}

impl Notification {
    pub closed spec fn spec_body(&self) -> Option<Seq<char>> {
        text_of(self.body)
    }

    pub closed spec fn spec_title(&self) -> Option<Seq<char>> {
        text_of(self.title)
    }

    pub closed spec fn spec_icon(&self) -> Option<Seq<char>> {
        text_of(self.icon)
    }

    pub closed spec fn spec_identifier(&self) -> Seq<char> {
        self.identifier@
    }

    /// A notification for the application `identifier`, with no body, title or icon.
    pub fn new(identifier: String) -> (r: Self)
        ensures
            r.spec_identifier() == identifier@,
            r.spec_body() is None,
            r.spec_title() is None,
            r.spec_icon() is None,
    {
        Notification { body: None, title: None, icon: None, identifier }
    }

    /// Sets the notification body.
    pub fn body(self, body: String) -> (r: Self)
        ensures
            r.spec_body() == Some(body@),
            r.spec_title() == self.spec_title(),
            r.spec_icon() == self.spec_icon(),
            r.spec_identifier() == self.spec_identifier(),
    {
        Notification { body: Some(body), ..self }
    }

    /// Sets the notification title.
    pub fn title(self, title: String) -> (r: Self)
        ensures
            r.spec_title() == Some(title@),
            r.spec_body() == self.spec_body(),
            r.spec_icon() == self.spec_icon(),
            r.spec_identifier() == self.spec_identifier(),
    {
        Notification { title: Some(title), ..self }
    }

    /// Sets the notification icon.
    pub fn icon(self, icon: String) -> (r: Self)
        ensures
            r.spec_icon() == Some(icon@),
            r.spec_body() == self.spec_body(),
            r.spec_title() == self.spec_title(),
            r.spec_identifier() == self.spec_identifier(),
    {
        Notification { icon: Some(icon), ..self }
    }

    /// The body, title, icon and identifier, taken out for the notification service.
    pub fn into_parts(self) -> (r: (Option<String>, Option<String>, Option<String>, String))
        ensures
            text_of(r.0) == self.spec_body(),
            text_of(r.1) == self.spec_title(),
            text_of(r.2) == self.spec_icon(),
            r.3@ == self.spec_identifier(),
    {
        (self.body, self.title, self.icon, self.identifier)
    }

    /// The application identity to tag the notification with, for an executable
    /// that lies in `exe_dir` on a system whose path separator is `separator`:
    /// the identifier, except for an unpackaged build, which runs from a
    /// `target` debug or release directory and gets no tag.
    pub fn app_id(&self, exe_dir: &str, separator: u8) -> (r: Option<String>)
        ensures
            r is None <==> is_build_dir(exe_dir.spec_bytes(), separator),
            r matches Some(s) ==> s@ == self.spec_identifier(),
    {
        let dir = exe_dir.as_bytes();
        let debug = build_tail(separator, false);
        let release = build_tail(separator, true);
        if bytes_end_with(dir, &debug) || bytes_end_with(dir, &release) {
            None
        } else {
            Some(self.identifier.clone())
        }
    }
}

} // verus!

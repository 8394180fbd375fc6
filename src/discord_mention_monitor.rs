use crate::text::occurs_in;
use regex::Regex;
use vstd::prelude::*;
use vstd::string::StringExecFns;

verus! {

#[verifier::external_type_specification]
#[verifier::external_body]
pub struct ExRegex(Regex);

#[verifier::external_type_specification]
#[verifier::external_body]
pub struct ExRegexError(regex::Error);

/// The characters that `regex::escape` quotes with a backslash.
pub open spec fn regex_meta(c: char) -> bool {
    c == '\\' || c == '.' || c == '+' || c == '*' || c == '?' || c == '(' || c == ')' || c == '|'
        || c == '[' || c == ']' || c == '{' || c == '}' || c == '^' || c == '$' || c == '#'
        || c == '&' || c == '-' || c == '~'
}

/// What `regex::escape` makes of `s`: each meta character preceded by a
/// backslash, every other character as it is.
pub open spec fn regex_escaped(s: Seq<char>) -> Seq<char>
    decreases s.len(),
{
    if s.len() == 0 {
        Seq::empty()
    } else {
        let c = s.last();
        regex_escaped(s.drop_last()) + if regex_meta(c) {
            seq!['\\', c]
        } else {
            seq![c]
        }
    }
}

/// Whether `Regex::new` accepts the pattern `p`.
pub uninterp spec fn regex_compiles(p: Seq<char>) -> bool;

/// Whether `re` was made by `Regex::new`, with the default options.
pub uninterp spec fn built_by_new(re: Regex) -> bool;

/// The pattern text that a compiled regex was built from.
pub uninterp spec fn regex_source(re: Regex) -> Seq<char>;

/// Relies on `regex::escape`: it puts a backslash before every meta
/// character of `s` (`regex_syntax::is_meta_character`), so that the result
/// stands for `s` itself inside a pattern.
#[verifier::external_body]
fn escape(s: &str) -> (r: String)
    ensures
        r@ == regex_escaped(s@),
{
    regex::escape(s)
}

/// Relies on `Regex::new`: whether it succeeds depends on the pattern alone,
/// and a regex it makes has the default options and keeps the pattern text
/// it was built from (the text that `Regex::as_str` gives back).
#[verifier::external_body]
fn compile(pattern: &str) -> (r: Result<Regex, regex::Error>)
    ensures
        (r is Ok) == regex_compiles(pattern@),
        r matches Ok(re) ==> regex_source(re) == pattern@ && built_by_new(re),
{
    Regex::new(pattern)
}

/// Relies on `Regex::is_match`, which is true iff the regex matches anywhere
/// in `haystack`: a regex that `Regex::new` built from the escaped form of a
/// text matches exactly where that text occurs.
#[verifier::external_body]
fn is_match(re: &Regex, haystack: &str) -> (r: bool)
    ensures
        built_by_new(*re) ==> forall|lit: Seq<char>|
            #[trigger] regex_escaped(lit) == regex_source(*re) ==> (r == occurs_in(lit, haystack@)),
{
    re.is_match(haystack)
}

/// The token by which a chat message mentions the user `id`: `<@id>`.
pub open spec fn mention_token(id: Seq<char>) -> Seq<char> {
    seq!['<', '@'] + id + seq!['>']
}

/// Builds the mention token of `id`.
fn mention_token_of(id: &str) -> (r: String)
    ensures
        r@ == mention_token(id@),
{
    let mut r = String::from_str("<@");
    r.append(id);
    r.append(">");
    proof {
        reveal_strlit("<@");
        reveal_strlit(">");
    }
    r
}

/// Collects the settings of a [`DiscordMentionMonitor`].
pub struct DiscordMentionMonitorBuilder<C> {
    target_user_id: String,
    callback: Option<C>,
}

/// Watches chat messages for mentions of one user, and hands each message
/// that mentions that user to its callback.
pub struct DiscordMentionMonitor<C> {
    target_user_id: String,
    mention: Regex,
    callback: C,
}

impl<C> DiscordMentionMonitorBuilder<C> {
    /// The user whose mentions are watched for.
    pub closed spec fn target_id(&self) -> Seq<char> {
        self.target_user_id@
    }

    /// The callback set so far, if any.
    pub closed spec fn callback_spec(&self) -> Option<C> {
        self.callback
    }

    /// A builder for the same user, with `callback` set.
    pub fn mention_callback(&self, callback: C) -> (r: Self)
        ensures
            r.target_id() == self.target_id(),
            r.callback_spec() == Some(callback),
    {
        DiscordMentionMonitorBuilder { target_user_id: self.target_user_id.clone(), callback: Some(callback) }
    }

    /// Builds the monitor. Fails when no callback was set, when the user id
    /// is empty, or when the mention pattern does not compile.
    pub fn build(self) -> (r: Result<DiscordMentionMonitor<C>, String>)
        ensures
            (r is Ok) <==> (self.callback_spec() is Some && self.target_id().len() > 0
                && regex_compiles(regex_escaped(mention_token(self.target_id())))),
            self.callback_spec() is None <==> (r matches Err(e) && e@ == "Callback not provided"@),
            self.callback_spec() is Some && self.target_id().len() == 0 <==> (r matches Err(e) && e@
                == "Target user id is empty"@),
            r matches Ok(m) ==> m.target_id() == self.target_id() && Some(m.callback_spec())
                == self.callback_spec() && self.target_id().len() > 0,
            r matches Err(e) ==> e@ == "Callback not provided"@ || e@ == "Target user id is empty"@
                || (e@ == "Invalid mention pattern"@ && self.callback_spec() is Some
                && self.target_id().len() > 0),
    {
        proof {
            reveal_strlit("Callback not provided");
            reveal_strlit("Target user id is empty");
            reveal_strlit("Invalid mention pattern");
            assert("Callback not provided"@[0] != "Target user id is empty"@[0]);
            assert("Callback not provided"@[0] != "Invalid mention pattern"@[0]);
            assert("Target user id is empty"@[0] != "Invalid mention pattern"@[0]);
        }
        let callback = match self.callback {
            Some(callback) => callback,
            None => {
                return Err(String::from_str("Callback not provided"));
            },
        };
        if self.target_user_id.as_str().is_empty() {
            return Err(String::from_str("Target user id is empty"));
        }
        let token = mention_token_of(self.target_user_id.as_str());
        let pattern = escape(token.as_str());
        match compile(pattern.as_str()) {
            Ok(mention) => Ok(DiscordMentionMonitor { target_user_id: self.target_user_id, mention, callback }),
            Err(_) => Err(String::from_str("Invalid mention pattern")),
        }
    }
}

impl<C> DiscordMentionMonitor<C> {
    #[verifier::type_invariant]
    closed spec fn inv(&self) -> bool {
        &&& self.target_user_id@.len() > 0
        &&& built_by_new(self.mention)
        &&& regex_source(self.mention) == regex_escaped(mention_token(self.target_user_id@))
    }

    /// The user whose mentions are watched for.
    pub closed spec fn target_id(&self) -> Seq<char> {
        self.target_user_id@
    }

    /// The callback that mentions are handed to.
    pub closed spec fn callback_spec(&self) -> C {
        self.callback
    }

    /// A builder for a monitor of the user `target_user_id`, with no callback yet.
    pub fn builder(target_user_id: String) -> (r: DiscordMentionMonitorBuilder<C>)
        ensures
            r.target_id() == target_user_id@,
            r.callback_spec() is None,
    {
        DiscordMentionMonitorBuilder { target_user_id, callback: None }
    }

    /// Whether `content` mentions the watched user: true exactly when the
    /// mention token `<@id>` occurs anywhere in it, taken literally.
    pub fn is_mention(&self, content: &str) -> (r: bool)
        ensures
            r == occurs_in(mention_token(self.target_id()), content@),
    {
        proof {
            use_type_invariant(self);
        }
        is_match(&self.mention, content)
    }

    /// The callback that mentions are handed to.
    pub fn callback(&self) -> (r: &C)
        ensures
            *r == self.callback_spec(),
    {
        &self.callback
    }

    /// The user whose mentions are watched for.
    pub fn target_user_id(&self) -> (r: &str)
        ensures
            r@ == self.target_id(),
            r@.len() > 0,
    {
        proof {
            use_type_invariant(self);
        }
        self.target_user_id.as_str()
    }
}

} // verus!

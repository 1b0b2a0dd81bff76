//! The stored bearer token: where it lives and what a look at its file means.

use crate::error::{Error, ErrorView};
use crate::text::{is_blank, lemma_trimmed_empty, trim, trimmed};
use vstd::prelude::*;

verus! {

/// The bearer token that the user pasted. Its view is the token's text.
#[derive(Debug, PartialEq, Eq)]
pub struct StoredToken {
    pub access_token: String,
}

impl View for StoredToken {
    type V = Seq<char>;

    open spec fn view(&self) -> Seq<char> {
        self.access_token@
    }
}

/// Where the token is kept: the configuration directory and the file in it.
#[derive(Debug, PartialEq, Eq)]
pub struct TokenLocation {
    pub dir: String,
    pub path: String,
}

/// The mathematical value of a [`TokenLocation`].
pub struct TokenLocationView {
    pub dir: Seq<char>,
    pub path: Seq<char>,
}

impl View for TokenLocation {
    type V = TokenLocationView;

    open spec fn view(&self) -> TokenLocationView {
        TokenLocationView { dir: self.dir@, path: self.path@ }
    }
}

/// An order to write a token to its place.
#[derive(Debug, PartialEq, Eq)]
pub struct TokenWrite {
    pub place: TokenLocation,
    pub token: StoredToken,
}

/// The mathematical value of a [`TokenWrite`].
pub struct TokenWriteView {
    pub place: TokenLocationView,
    pub token: Seq<char>,
}

impl View for TokenWrite {
    type V = TokenWriteView;

    open spec fn view(&self) -> TokenWriteView {
        TokenWriteView { place: self.place@, token: self.token@ }
    }
}

/// What a look at the token file found.
#[derive(Debug, PartialEq, Eq)]
pub enum TokenFile {
    /// There is no such file.
    Missing,
    /// The directory or the file could not be read; the system's description.
    Unreadable(String),
    /// The file does not hold a token; the parser's description.
    Malformed(String),
    /// The file holds this token.
    Present(StoredToken),
}

/// The mathematical value of a [`TokenFile`].
pub enum TokenFileView {
    Missing,
    Unreadable(Seq<char>),
    Malformed(Seq<char>),
    Present(Seq<char>),
}

impl View for TokenFile {
    type V = TokenFileView;

    open spec fn view(&self) -> TokenFileView {
        match *self {
            TokenFile::Missing => TokenFileView::Missing,
            TokenFile::Unreadable(text) => TokenFileView::Unreadable(text@),
            TokenFile::Malformed(text) => TokenFileView::Malformed(text@),
            TokenFile::Present(token) => TokenFileView::Present(token@),
        }
    }
}

/// `base` extended by the relative path `name`: a separator comes between the two unless
/// `base` is empty or already ends with one.
pub open spec fn join_path(base: Seq<char>, name: Seq<char>) -> Seq<char> {
    if base.len() > 0 && base.last() != '/' {
        base.push('/') + name
    } else {
        base + name
    }
}

/// The configuration directory of the user whose home directory is `home`.
pub open spec fn config_dir_of(home: Seq<char>) -> Seq<char> {
    join_path(join_path(home, ".config"@), "femail"@)
}

/// The token file in the configuration directory `dir`.
pub open spec fn token_path_of(dir: Seq<char>) -> Seq<char> {
    join_path(dir, "token.json"@)
}

/// Where the token of the user with the home directory `home` is kept.
pub open spec fn location_of(home: Seq<char>) -> TokenLocationView {
    TokenLocationView { dir: config_dir_of(home), path: token_path_of(config_dir_of(home)) }
}

/// What loading yields for what was found at the token's place.
pub open spec fn loaded(found: TokenFileView) -> Result<Seq<char>, ErrorView> {
    match found {
        TokenFileView::Missing => Err(ErrorView::NotAuthenticated),
        TokenFileView::Unreadable(text) => Err(ErrorView::Io(text)),
        TokenFileView::Malformed(text) => Err(ErrorView::Format(text)),
        TokenFileView::Present(token) => Ok(token),
    }
}

/// The token that a line of input stands for: the line without the white space around it,
/// and none where nothing is left.
pub open spec fn token_of_input(line: Seq<char>) -> Option<Seq<char>> {
    if trimmed(line).len() == 0 {
        None
    } else {
        Some(trimmed(line))
    }
}

fn join(base: &str, name: &str) -> (out: String)
    ensures
        out@ == join_path(base@, name@),
{
    let count = base.unicode_len();
    let mut out = String::from_str(base);
    if count > 0 && base.get_char(count - 1) != '/' {
        out.push('/');
    }
    out.append(name);
    out
}

/// Resolves the configuration directory from the home directory, if there is one.
///
/// The directory is not created here: the caller does that before it reads or writes in it.
pub fn get_config_dir(home: Option<&str>) -> (out: Result<String, Error>)
    ensures
        match home {
            Some(h) => out matches Ok(dir) && dir@ == config_dir_of(h@),
            None => out matches Err(e) && e@ == ErrorView::Environment,
        },
{
    match home {
        Some(h) => {
            let base = join(h, ".config");
            Ok(join(base.as_str(), "femail"))
        },
        None => Err(Error::Environment),
    }
}

/// Resolves the place of the token file.
pub fn token_location(home: Option<&str>) -> (out: Result<TokenLocation, Error>)
    ensures
        match home {
            Some(h) => out matches Ok(place) && place@ == location_of(h@),
            None => out matches Err(e) && e@ == ErrorView::Environment,
        },
{
    match get_config_dir(home) {
        Ok(dir) => {
            let path = join(dir.as_str(), "token.json");
            Ok(TokenLocation { dir, path })
        },
        Err(e) => Err(e),
    }
}

/// Reads a token from a line of input. White space around it does not count; a blank
/// line holds no token.
pub fn token_from_input(line: &str) -> (out: Option<StoredToken>)
    ensures
        match out {
            Some(token) => Some(token@) == token_of_input(line@),
            None => token_of_input(line@) is None,
        },
        out is None <==> is_blank(line@),
{
    proof {
        lemma_trimmed_empty(line@);
    }
    let access_token = trim(line);
    if access_token.as_str().unicode_len() == 0 {
        None
    } else {
        Some(StoredToken { access_token })
    }
}

/// Stores `token` as far as that can be done without touching a file: says what is to be
/// written where.
///
/// The caller creates the directory if it is missing and writes the token as JSON to the
/// path, in place of what is there.
pub fn save_token(token: &StoredToken, home: Option<&str>) -> (out: Result<TokenWrite, Error>)
    ensures
        match home {
            Some(h) => out matches Ok(order) && order@ == (TokenWriteView {
                place: location_of(h@),
                token: token@,
            }),
            None => out matches Err(e) && e@ == ErrorView::Environment,
        },
{
    match token_location(home) {
        Ok(place) => Ok(
            TokenWrite { place, token: StoredToken { access_token: token.access_token.clone() } },
        ),
        Err(e) => Err(e),
    }
}

/// Loads the token from what was found at its place: the token, or the reason why there is
/// none. Without a token file the reason is that nobody has authenticated yet, whatever else.
pub fn load_token(found: TokenFile) -> (out: Result<StoredToken, Error>)
    ensures
        match out {
            Ok(token) => loaded(found@) == Ok::<Seq<char>, ErrorView>(token@),
            Err(e) => loaded(found@) == Err::<Seq<char>, ErrorView>(e@),
        },
        found@ is Missing <==> (out matches Err(e) && e@ is NotAuthenticated),
        found@ is Present <==> out is Ok,
{
    match found {
        TokenFile::Missing => Err(Error::NotAuthenticated),
        TokenFile::Unreadable(text) => Err(Error::Io(text)),
        TokenFile::Malformed(text) => Err(Error::Format(text)),
        TokenFile::Present(token) => Ok(token),
    }
}

/// A token that is found where `save_token` ordered it written is loaded again unchanged.
pub proof fn lemma_saved_token_is_loaded(token: Seq<char>)
    ensures
        loaded(TokenFileView::Present(token)) == Ok::<Seq<char>, ErrorView>(token),
{
}

} // verus!

//! What the overlay's web service decides before it touches a file or a
//! template: which team a page is about, which file a request may read, and
//! what kind of content that file is.

use vstd::prelude::*;
use crate::models::{SaveData, Team};
use crate::text::{
    after_last, chars_of, ends_with_from, has_double, holds_double, last_position,
    leading_count, without_leading,
};

verus! {

/// Why a request gets no page.
#[derive(Clone, Copy, Debug, PartialEq, Eq, Hash, Structural)]
pub enum AppError {
    /// A template could not be rendered.
    TemplateError,
    /// There is nothing at the address that was asked for.
    NotFound,
}

impl AppError {
    /// The HTTP status that the error is answered with.
    pub fn status(&self) -> (code: u16)
        ensures
            code == match *self {
                AppError::TemplateError => 500u16,
                AppError::NotFound => 404u16,
            },
    {
        match self {
            AppError::TemplateError => 500,
            AppError::NotFound => 404,
        }
    }

    /// The text that the error is answered with.
    pub fn message(&self) -> (text: String)
        ensures
            text@ == match *self {
                AppError::TemplateError => "Could not parse template"@,
                AppError::NotFound => "Not found"@,
            },
    {
        match self {
            AppError::TemplateError => "Could not parse template".to_owned(),
            AppError::NotFound => "Not found".to_owned(),
        }
    }
}

/// The part of a path behind its last dot; the whole path if it has no dot.
pub open spec fn extension_of(path: Seq<char>) -> Seq<char> {
    path.skip(last_position(path, '.') + 1)
}

/// The content type of a file with the given extension.
pub open spec fn content_type_of(extension: Seq<char>) -> Seq<char> {
    if extension == "css"@ {
        "text/css"@
    } else if extension == "js"@ {
        "text/javascript"@
    } else if extension == "png"@ {
        "image/png"@
    } else if extension == "jpg"@ {
        "image/jpeg"@
    } else if extension == "jpeg"@ {
        "image/jpeg"@
    } else if extension == "gif"@ {
        "image/gif"@
    } else if extension == "svg"@ {
        "image/svg+xml"@
    } else {
        "application/octet-stream"@
    }
}

/// The content type that a file is served with, by the extension of its path.
pub fn get_content_type(path: &str) -> (content_type: &'static str)
    ensures
        content_type@ == content_type_of(extension_of(path@)),
{
    let chars = chars_of(path);
    let start = after_last(&chars, '.');
    if ends_with_from(&chars, start, "css") {
        "text/css"
    } else if ends_with_from(&chars, start, "js") {
        "text/javascript"
    } else if ends_with_from(&chars, start, "png") {
        "image/png"
    } else if ends_with_from(&chars, start, "jpg") {
        "image/jpeg"
    } else if ends_with_from(&chars, start, "jpeg") {
        "image/jpeg"
    } else if ends_with_from(&chars, start, "gif") {
        "image/gif"
    } else if ends_with_from(&chars, start, "svg") {
        "image/svg+xml"
    } else {
        "application/octet-stream"
    }
}

/// Whether a content type is one of text, so that the file is read as text.
pub fn is_text_type(content_type: &str) -> (text: bool)
    ensures
        text == (content_type@.len() >= 4 && content_type@.take(4) == "text"@),
{
    let chars = chars_of(content_type);
    proof {
        reveal_strlit("text");
    }
    if chars.len() < 4 {
        return false;
    }
    let same = chars[0] == 't' && chars[1] == 'e' && chars[2] == 'x' && chars[3] == 't';
    proof {
        if same {
            assert(content_type@.take(4) =~= "text"@);
        } else {
            assert(content_type@.take(4)[0] == chars@[0]);
            assert(content_type@.take(4)[1] == chars@[1]);
            assert(content_type@.take(4)[2] == chars@[2]);
            assert(content_type@.take(4)[3] == chars@[3]);
        }
    }
    same
}

/// What is served for a request of an asset.
#[derive(Clone, Debug, PartialEq, Eq, Hash)]
pub struct AssetRequest {
    /// The file, as a path below the directory of the loaded configuration.
    pub path: String,
    /// The content type that the file is served with.
    pub content_type: &'static str,
    /// Whether the file is read as text.
    pub as_text: bool,
}

/// The path of an asset below the directory of the loaded configuration:
/// the directory `assets`, and in it what was asked for, without the
/// slashes that it began with.
pub open spec fn asset_path_of(path: Seq<char>) -> Seq<char> {
    "assets/"@ + without_leading(path, '/')
}

/// Decides what a request for the asset at `path` is answered with. A path
/// that holds two dots in a row could leave the assets and finds nothing.
pub fn asset_request(path: &str) -> (result: Result<AssetRequest, AppError>)
    ensures
        has_double(path@, '.') ==> result == Err::<AssetRequest, AppError>(AppError::NotFound),
        !has_double(path@, '.') ==> {
            &&& result matches Ok(request)
            &&& request.path@ == asset_path_of(path@)
            &&& request.content_type@ == content_type_of(extension_of(asset_path_of(path@)))
            &&& request.as_text == (request.content_type@.len() >= 4
                && request.content_type@.take(4) == "text"@)
        },
{
    let chars = chars_of(path);
    if holds_double(&chars, '.') {
        return Err(AppError::NotFound);
    }
    let skipped = leading_count(&chars, '/');
    let mut file = "assets/".to_owned();
    let mut i: usize = skipped;
    while i < chars.len()
        invariant
            skipped <= i <= chars@.len(),
            file@ == "assets/"@ + chars@.subrange(skipped as int, i as int),
        decreases chars@.len() - i,
    {
        file.push(chars[i]);
        proof {
            assert(file@ =~= "assets/"@ + chars@.subrange(skipped as int, i + 1));
        }
        i = i + 1;
    }
    proof {
        assert(chars@.subrange(skipped as int, i as int) =~= chars@.skip(skipped as int));
    }
    let content_type = get_content_type(file.as_str());
    let as_text = is_text_type(content_type);
    Ok(AssetRequest { path: file, content_type, as_text })
}

impl SaveData {
    /// The team that a team page is about: the first team of the current
    /// match for page 1, the second for every other page. There is no page
    /// if the match has no such team, or if the team does not exist.
    pub fn match_team(&self, number: usize) -> (result: Result<&Team, AppError>)
        ensures
            match Self::match_team_reference(*self, number) {
                Some(t) if t < self.division.teams@.len() => result == Ok::<&Team, AppError>(
                    &self.division.teams@[t as int],
                ),
                _ => result == Err::<&Team, AppError>(AppError::NotFound),
            },
    {
        let reference = if number == 1 {
            self.current_match.team1
        } else {
            self.current_match.team2
        };
        match reference {
            None => Err(AppError::NotFound),
            Some(t) => match self.division.teams.get(t) {
                Some(team) => Ok(team),
                None => Err(AppError::NotFound),
            },
        }
    }

    /// The team reference that the team page `number` shows.
    pub open spec fn match_team_reference(data: SaveData, number: usize) -> Option<usize> {
        if number == 1 {
            data.current_match.team1
        } else {
            data.current_match.team2
        }
    }
}

} // verus!

//! Image references shared by the container and guest runtimes, and the
//! channel a binary was built for.
use crate::text::{contains, has_char, is_blank, same_text, split_once};
use vstd::prelude::*;

verus! {

/// The version of this package, which release images are tagged with.
pub const PACKAGE_VERSION: &'static str = "0.1.0";

/// The channel a binary was built for.
#[derive(Clone, Copy, Debug, PartialEq, Eq, Structural)]
pub enum BuildChannel {
    Dev,
    Release,
}

impl BuildChannel {
    /// Why an image that names no registry is not pulled.
    pub open spec fn refusal(self) -> Seq<char> {
        match self {
            BuildChannel::Dev => "this dev build never pulls a locally built image"@,
            BuildChannel::Release => "omnifs never pulls an image that names no registry"@,
        }
    }

    /// Why an image that names no registry is not pulled.
    pub fn pull_refusal_reason(self) -> (reason: &'static str)
        ensures
            reason@ == self.refusal(),
    {
        match self {
            BuildChannel::Dev => "this dev build never pulls a locally built image",
            BuildChannel::Release => "omnifs never pulls an image that names no registry",
        }
    }
}

/// Which of the values a runtime image is resolved from: the explicit one,
/// else that of the environment, else the configured one, else the default.
pub open spec fn resolved_reference(
    explicit: Option<Seq<char>>,
    environment: Option<Seq<char>>,
    configured: Option<Seq<char>>,
    default: Seq<char>,
) -> Seq<char> {
    match explicit {
        Some(image) => image,
        None => match environment {
            Some(image) => image,
            None => match configured {
                Some(image) => image,
                None => default,
            },
        },
    }
}

/// An optional text that is borrowed, by what it spells.
pub open spec fn opt_str(value: Option<&str>) -> Option<Seq<char>> {
    match value {
        Some(text) => Some(text@),
        None => None,
    }
}

/// Resolves a runtime image: the explicit value, else that of the environment,
/// else the configured one, else the default.
pub fn resolve_image_reference(
    explicit: Option<String>,
    environment: Option<String>,
    configured: Option<&str>,
    default: &str,
) -> (image: String)
    ensures
        image@ == resolved_reference(
            crate::text::opt_text(explicit),
            crate::text::opt_text(environment),
            opt_str(configured),
            default@,
        ),
{
    match explicit {
        Some(image) => image,
        None => match environment {
            Some(image) => image,
            None => match configured {
                Some(image) => image.to_owned(),
                None => default.to_owned(),
            },
        },
    }
}

/// What an image reference that is no reference is refused with.
pub open spec fn empty_reference() -> Seq<char> {
    "image reference must not be empty"@
}

/// A reference to an image.
#[derive(Debug, PartialEq, Eq)]
pub struct ImageRef {
    pub text: String,
}

impl View for ImageRef {
    type V = Seq<char>;

    open spec fn view(&self) -> Seq<char> {
        self.text@
    }
}

impl Clone for ImageRef {
    fn clone(&self) -> (copy: Self)
        ensures
            copy == *self,
    {
        ImageRef { text: self.text.clone() }
    }
}

/// Whether a reference names a registry host: its first segment looks like
/// one.
pub open spec fn names_registry(image: Seq<char>) -> bool {
    image.contains('/') && {
        let first = crate::text::head(image, '/');
        first.contains('.') || first.contains(':') || first == "localhost"@
    }
}

impl ImageRef {
    /// Takes any reference that is more than white space.
    pub fn new(image: String) -> (reference: Result<Self, String>)
        ensures
            match reference {
                Ok(reference) => !crate::text::is_blank_text(image@) && reference@ == image@,
                Err(text) => crate::text::is_blank_text(image@) && text@ == empty_reference(),
            },
    {
        if is_blank(image.as_str()) {
            return Err("image reference must not be empty".to_owned());
        }
        Ok(ImageRef { text: image })
    }

    /// The reference as text.
    pub fn as_str(&self) -> (text: &str)
        ensures
            text@ == self@,
    {
        self.text.as_str()
    }

    /// Whether this reference names a registry host. Bare references such as
    /// `omnifs-filesystem:dev` are local build products.
    pub fn has_registry(&self) -> (named: bool)
        ensures
            named == names_registry(self@),
    {
        match split_once(self.text.as_str(), '/') {
            None => false,
            Some((first, _)) => has_char(first.as_str(), '.') || has_char(first.as_str(), ':')
                || same_text(first.as_str(), "localhost"),
        }
    }
}

/// The lower-case form of a text.
pub uninterp spec fn lower_case_of(text: Seq<char>) -> Seq<char>;

/// `str::to_lowercase` gives the lower-case form of a text, which depends on
/// the text alone. Which one that is, is left unsaid.
#[verifier::external_body]
fn lower_case(text: &str) -> (lower: String)
    ensures
        lower@ == lower_case_of(text@),
{
    text.to_lowercase()
}

/// Whether the error of a pull says that the registry does not have the tag,
/// given its lower-case form.
pub open spec fn says_missing(error: Seq<char>, lower: Seq<char>) -> bool {
    crate::text::occurs(error, "404"@) || crate::text::occurs(lower, "not found"@)
}

/// Whether the error of a pull says that the registry does not have the tag,
/// given its lower-case form.
pub fn reads_as_missing(error: &str, lower: &str) -> (missing: bool)
    ensures
        missing == says_missing(error@, lower@),
{
    contains(error, "404") || contains(lower, "not found")
}

/// What to tell of an image that the registry does not have.
pub open spec fn missing_image_text(image: Seq<char>) -> Seq<char> {
    "image `"@ + image
        + "` was not found in the registry\n\nThis tag may not be published yet. Options:\n- Configure a specific filesystem image in `config.toml` (for example a release tag or a channel tag)\n- Run `just dev` to build and launch the local sandbox\n- Check https://ghcr.io/0xff-ai/omnifs-filesystem for available tags"@
}

/// The error of a pull as it is shown: a tag that the registry does not have
/// is explained, anything else is passed on.
pub fn explain_pull_error(image: &ImageRef, error: String) -> (text: String)
    ensures
        text@ == (if says_missing(error@, lower_case_of(error@)) {
            missing_image_text(image@)
        } else {
            error@
        }),
{
    let lower = lower_case(error.as_str());
    if reads_as_missing(error.as_str(), lower.as_str()) {
        return crate::text::concat3(
            "image `",
            image.as_str(),
            "` was not found in the registry\n\nThis tag may not be published yet. Options:\n- Configure a specific filesystem image in `config.toml` (for example a release tag or a channel tag)\n- Run `just dev` to build and launch the local sandbox\n- Check https://ghcr.io/0xff-ai/omnifs-filesystem for available tags",
        );
    }
    error
}

} // verus!

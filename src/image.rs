//! The image's reference and the arguments handed to the container engine.
use vstd::prelude::*;
use vstd::string::*;
use crate::manifest::PackageMetadata;

verus! {

/// An image's name and tag.
#[derive(Clone, Debug, PartialEq, Eq)]
pub struct ImageReference {
    pub name: String,
    pub tag: String,
}

/// `name:tag`.
pub open spec fn tagged(name: Seq<char>, tag: Seq<char>) -> Seq<char> {
    name + ":"@ + tag
}

/// The image that the pipeline builds: the name and tag given, or else the
/// package's name and version.
pub fn resolve_image(
    name: Option<String>,
    tag: Option<String>,
    package: &PackageMetadata,
) -> (r: ImageReference)
    ensures
        r.name@ == match name {
            Some(n) => n@,
            None => package.name@,
        },
        r.tag@ == match tag {
            Some(t) => t@,
            None => package.version@,
        },
{
    let name = match name {
        Some(n) => n,
        None => package.name.clone(),
    };
    let tag = match tag {
        Some(t) => t,
        None => package.version.clone(),
    };
    ImageReference { name, tag }
}

/// `name:tag` for an image name and any tag.
pub fn tag_reference(name: &str, tag: &str) -> (r: String)
    ensures
        r@ == tagged(name@, tag@),
{
    let mut r = String::from_str(name);
    r.append(":");
    r.append(tag);
    r
}

impl ImageReference {
    /// `name:tag`.
    pub fn full_name(&self) -> (r: String)
        ensures
            r@ == tagged(self.name@, self.tag@),
    {
        tag_reference(self.name.as_str(), self.tag.as_str())
    }

    /// The archive that an export writes: `name-tag.tgz`.
    pub fn archive_name(&self) -> (r: String)
        ensures
            r@ == self.name@ + "-"@ + self.tag@ + ".tgz"@,
    {
        let mut r = self.name.clone();
        r.append("-");
        r.append(self.tag.as_str());
        r.append(".tgz");
        r
    }

    /// The shell command that saves the image and compresses it into the
    /// archive.
    pub fn export_command(&self) -> (r: String)
        ensures
            r@ == "docker save "@ + tagged(self.name@, self.tag@) + " | gzip > "@ + self.name@
                + "-"@ + self.tag@ + ".tgz"@,
    {
        let mut r = String::from_str("docker save ");
        let full = self.full_name();
        r.append(full.as_str());
        r.append(" | gzip > ");
        let archive = self.archive_name();
        r.append(archive.as_str());
        r
    }
}

} // verus!

//! The decisions of the release packaging: what each flavor of a release
//! bundles, and how it rewrites the client's manifest.

use vstd::prelude::*;

verus! {

/// Where a release of the client is published.
#[derive(Clone, Copy, Debug, PartialEq, Eq, Structural)]
pub enum ReleaseFlavor {
    GitHub,
    MetaStore,
    PicoStore,
}

/// Which OpenXR loaders a build of the client bundles.
#[derive(Clone, Copy, Debug, PartialEq, Eq, Structural)]
pub enum OpenXRLoadersSelection {
    OnlyGeneric,
    OnlyPico,
    All,
}

/// One rewrite of the client's manifest.
#[derive(Clone, Copy, Debug, PartialEq, Eq, Structural)]
pub enum ManifestPatch {
    /// A store release goes out under the plain package name.
    PackageName,
    /// A release for the Meta store names the headsets it supports.
    SupportedDevices,
}

/// The text `text` with every occurrence of `from` replaced by `to`, as
/// `str::replace` of the standard library computes it: the text is gone
/// through from its start, an occurrence that begins where the last one ended
/// or later is replaced and passed over, and what was put in is not looked at
/// again. An empty `from` occurs before each character and at the end.
pub open spec fn replaced(text: Seq<char>, from: Seq<char>, to: Seq<char>) -> Seq<char>
    decreases text.len(),
{
    if text.len() == 0 {
        if from.len() == 0 {
            to
        } else {
            text
        }
    } else if from.len() == 0 {
        to + text.take(1) + replaced(text.skip(1), from, to)
    } else if from.is_prefix_of(text) {
        to + replaced(text.skip(from.len() as int), from, to)
    } else {
        text.take(1) + replaced(text.skip(1), from, to)
    }
}

/// Whether `from` occurs in `text` at position `at`.
pub open spec fn occurs_at(text: Seq<char>, from: Seq<char>, at: int) -> bool {
    &&& 0 <= at
    &&& at + from.len() <= text.len()
    &&& text.subrange(at, at + from.len()) == from
}

/// A pattern that occurs nowhere in a text leaves it as it is.
pub proof fn lemma_absent_pattern_leaves_text(text: Seq<char>, from: Seq<char>, to: Seq<char>)
    requires
        from.len() > 0,
        forall|at: int| !occurs_at(text, from, at),
    ensures
        replaced(text, from, to) == text,
    decreases text.len(),
{
    if text.len() > 0 {
        assert(!from.is_prefix_of(text)) by {
            if from.is_prefix_of(text) {
                assert(text.subrange(0, 0 + from.len() as int) =~= from);
                assert(occurs_at(text, from, 0));
            }
        }
        let rest = text.skip(1);
        assert forall|at: int| !occurs_at(rest, from, at) by {
            if occurs_at(rest, from, at) {
                assert(text.subrange(at + 1, at + 1 + from.len()) =~= rest.subrange(
                    at,
                    at + from.len(),
                ));
                assert(occurs_at(text, from, at + 1));
            }
        }
        lemma_absent_pattern_leaves_text(rest, from, to);
        assert(text.take(1) + rest =~= text);
    }
}

/// `str::replace`: the text with every occurrence of the pattern replaced, as
/// [`replaced`] spells it out.
#[verifier::external_body]
fn replace_all(text: &str, from: &str, to: &str) -> (r: String)
    ensures
        r@ == replaced(text@, from@, to@),
{
    text.replace(from, to)
}

/// The manifest with every occurrence of `from_pattern` replaced by `to`.
pub fn replace_client_openxr_manifest(manifest: &str, from_pattern: &str, to: &str) -> (r: String)
    ensures
        r@ == replaced(manifest@, from_pattern@, to@),
{
    replace_all(manifest, from_pattern, to)
}

impl ManifestPatch {
    /// The text that the patch looks for.
    pub open spec fn spec_pattern(self) -> Seq<char> {
        match self {
            ManifestPatch::PackageName => "package = \"alvr.client.stable\""@,
            ManifestPatch::SupportedDevices => "value = \"all\""@,
        }
    }

    /// The text that the patch puts in its place.
    pub open spec fn spec_replacement(self) -> Seq<char> {
        match self {
            ManifestPatch::PackageName => "package = \"alvr.client\""@,
            ManifestPatch::SupportedDevices => "value = \"quest2|questpro|quest3\""@,
        }
    }

    /// The text that the patch looks for.
    pub fn pattern(&self) -> (r: &'static str)
        ensures
            r@ == self.spec_pattern(),
    {
        match self {
            ManifestPatch::PackageName => "package = \"alvr.client.stable\"",
            ManifestPatch::SupportedDevices => "value = \"all\"",
        }
    }

    /// The text that the patch puts in its place.
    pub fn replacement(&self) -> (r: &'static str)
        ensures
            r@ == self.spec_replacement(),
    {
        match self {
            ManifestPatch::PackageName => "package = \"alvr.client\"",
            ManifestPatch::SupportedDevices => "value = \"quest2|questpro|quest3\"",
        }
    }

    /// The manifest with every occurrence of the pattern replaced.
    pub fn apply(&self, manifest: &str) -> (r: String)
        ensures
            r@ == replaced(manifest@, self.spec_pattern(), self.spec_replacement()),
    {
        replace_client_openxr_manifest(manifest, self.pattern(), self.replacement())
    }
}

impl ReleaseFlavor {
    /// The loaders that a release of this flavor bundles: all of them on
    /// GitHub, only the generic one for the Meta store, only Pico's for the
    /// Pico store.
    pub open spec fn spec_openxr_loaders(self) -> OpenXRLoadersSelection {
        match self {
            ReleaseFlavor::GitHub => OpenXRLoadersSelection::All,
            ReleaseFlavor::MetaStore => OpenXRLoadersSelection::OnlyGeneric,
            ReleaseFlavor::PicoStore => OpenXRLoadersSelection::OnlyPico,
        }
    }

    /// The rewrites of the manifest that a release of this flavor needs, in
    /// the order in which they are made: none on GitHub, the package name for
    /// every store, and the supported devices after it for the Meta store.
    pub open spec fn spec_manifest_patches(self) -> Seq<ManifestPatch> {
        match self {
            ReleaseFlavor::GitHub => seq![],
            ReleaseFlavor::MetaStore => seq![
                ManifestPatch::PackageName,
                ManifestPatch::SupportedDevices,
            ],
            ReleaseFlavor::PicoStore => seq![ManifestPatch::PackageName],
        }
    }

    /// The manifest after the rewrites that this flavor needs.
    pub open spec fn patched(self, manifest: Seq<char>) -> Seq<char> {
        match self {
            ReleaseFlavor::GitHub => manifest,
            ReleaseFlavor::MetaStore => replaced(
                replaced(
                    manifest,
                    ManifestPatch::PackageName.spec_pattern(),
                    ManifestPatch::PackageName.spec_replacement(),
                ),
                ManifestPatch::SupportedDevices.spec_pattern(),
                ManifestPatch::SupportedDevices.spec_replacement(),
            ),
            ReleaseFlavor::PicoStore => replaced(
                manifest,
                ManifestPatch::PackageName.spec_pattern(),
                ManifestPatch::PackageName.spec_replacement(),
            ),
        }
    }

    /// The loaders that a release of this flavor bundles.
    pub fn openxr_loaders(&self) -> (r: OpenXRLoadersSelection)
        ensures
            r == self.spec_openxr_loaders(),
    {
        match self {
            ReleaseFlavor::GitHub => OpenXRLoadersSelection::All,
            ReleaseFlavor::MetaStore => OpenXRLoadersSelection::OnlyGeneric,
            ReleaseFlavor::PicoStore => OpenXRLoadersSelection::OnlyPico,
        }
    }

    /// The rewrites of the manifest that a release of this flavor needs, in
    /// the order in which they are made.
    pub fn manifest_patches(&self) -> (r: Vec<ManifestPatch>)
        ensures
            r@ == self.spec_manifest_patches(),
    {
        let mut patches: Vec<ManifestPatch> = Vec::new();
        match self {
            ReleaseFlavor::GitHub => {},
            ReleaseFlavor::MetaStore => {
                patches.push(ManifestPatch::PackageName);
                patches.push(ManifestPatch::SupportedDevices);
            },
            ReleaseFlavor::PicoStore => {
                patches.push(ManifestPatch::PackageName);
            },
        }
        assert(patches@ =~= self.spec_manifest_patches());
        patches
    }

    /// The manifest as a release of this flavor ships it, or `None` where the
    /// flavor ships it as it is.
    pub fn patch_manifest(&self, manifest: &str) -> (r: Option<String>)
        ensures
            r is None <==> *self == ReleaseFlavor::GitHub,
            r matches Some(text) ==> text@ == self.patched(manifest@),
    {
        match self {
            ReleaseFlavor::GitHub => None,
            ReleaseFlavor::MetaStore => {
                let renamed = ManifestPatch::PackageName.apply(manifest);
                Some(ManifestPatch::SupportedDevices.apply(renamed.as_str()))
            },
            ReleaseFlavor::PicoStore => Some(ManifestPatch::PackageName.apply(manifest)),
        }
    }
}

} // verus!

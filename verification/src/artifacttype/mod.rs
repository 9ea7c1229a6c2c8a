//! Artifact types: the registry that maps an artifact key to the logic that
//! resolves it, and the descriptors that this logic produces.
pub mod builtin;
pub mod fallback;
pub mod render;
pub mod types;

use crate::artifacttype::types::flatpak::{Flatpakref, FlatpakrefView};
use crate::nightly::NightlyConfig;
use crate::ordered_map::{text_entries, text_insert_all, OrderedMap, TextEntries};
use crate::release_map::NamedVersion;
use crate::settings::SettingValue;
use crate::storage::{DownloadSpec, VersionInfo};
use crate::text::concat3;
use vstd::prelude::*;

verus! {

/// This key in `ArtifactTypes` is used as the fallback implementation for unknown
/// artifact types.
pub const FALLBACK_KEY: &'static str = "__fallback";

pub type ArtifactKey = String;

/// Why an artifact could not be resolved.
#[derive(PartialEq, Eq, Structural, Clone, Copy, Debug)]
pub enum ArtifactError {
    /// The key has no artifact type and the registry has no fallback.
    NoFallback,
    /// The product's setting for the artifact type is missing or has the wrong form.
    MissingSetting,
    /// The artifact type does not offer the operation.
    NotSupported,
    /// The CI service or the local cache failed.
    Custom,
}

impl ArtifactError {
    /// The error in words.
    pub fn message(&self) -> (r: &'static str)
        ensures
            r@ == match *self {
                ArtifactError::NoFallback =>
                    "The server did not know how to handle the artifact type and no fallback was provided."@,
                ArtifactError::MissingSetting =>
                    "The product did not have the configuration for this artifact type in the correct format."@,
                ArtifactError::NotSupported => "Not supported"@,
                ArtifactError::Custom => "Custom error"@,
            },
    {
        match self {
            ArtifactError::NoFallback =>
                "The server did not know how to handle the artifact type and no fallback was provided.",
            ArtifactError::MissingSetting =>
                "The product did not have the configuration for this artifact type in the correct format.",
            ArtifactError::NotSupported => "Not supported",
            ArtifactError::Custom => "Custom error",
        }
    }
}

/// The view of an optional string.
pub open spec fn opt_view(s: Option<String>) -> Option<Seq<char>> {
    match s {
        Some(s) => Some(s@),
        None => None,
    }
}

/// The title under which an artifact is shown.
#[derive(Debug)]
pub enum ArtifactDisplayTitle {
    Simple(String),
    Descriptive { file_name: String, descriptive_title: String },
}

/// An `ArtifactDisplayTitle` as plain text.
pub enum ArtifactDisplayTitleView {
    Simple(Seq<char>),
    Descriptive { file_name: Seq<char>, descriptive_title: Seq<char> },
}

impl View for ArtifactDisplayTitle {
    type V = ArtifactDisplayTitleView;

    open spec fn view(&self) -> ArtifactDisplayTitleView {
        match *self {
            ArtifactDisplayTitle::Simple(s) => ArtifactDisplayTitleView::Simple(s@),
            ArtifactDisplayTitle::Descriptive { file_name, descriptive_title } =>
                ArtifactDisplayTitleView::Descriptive {
                    file_name: file_name@,
                    descriptive_title: descriptive_title@,
                },
        }
    }
}

impl ArtifactDisplayTitleView {
    /// The main title.
    pub open spec fn title(self) -> Seq<char> {
        match self {
            ArtifactDisplayTitleView::Simple(s) => s,
            ArtifactDisplayTitleView::Descriptive { descriptive_title, .. } => descriptive_title,
        }
    }

    /// The line below the title; empty for a simple title.
    pub open spec fn subtitle(self) -> Seq<char> {
        match self {
            ArtifactDisplayTitleView::Simple(_) => Seq::empty(),
            ArtifactDisplayTitleView::Descriptive { file_name, .. } => file_name,
        }
    }
}

impl ArtifactDisplayTitle {
    /// A simple title.
    pub fn simple(title: &str) -> (r: ArtifactDisplayTitle)
        ensures
            r@ == ArtifactDisplayTitleView::Simple(title@),
    {
        ArtifactDisplayTitle::Simple(String::from_str(title))
    }

    /// A title with the file's name below it.
    pub fn descriptive(file_name: &str, descriptive_title: &str) -> (r: ArtifactDisplayTitle)
        ensures
            r@ == (ArtifactDisplayTitleView::Descriptive {
                file_name: file_name@,
                descriptive_title: descriptive_title@,
            }),
    {
        ArtifactDisplayTitle::Descriptive {
            file_name: String::from_str(file_name),
            descriptive_title: String::from_str(descriptive_title),
        }
    }

    /// A copy that owns its text.
    pub fn clone_owned(&self) -> (r: ArtifactDisplayTitle)
        ensures
            r@ == self@,
    {
        match self {
            ArtifactDisplayTitle::Simple(s) => ArtifactDisplayTitle::Simple(s.clone()),
            ArtifactDisplayTitle::Descriptive { file_name, descriptive_title } =>
                ArtifactDisplayTitle::Descriptive {
                    file_name: file_name.clone(),
                    descriptive_title: descriptive_title.clone(),
                },
        }
    }

    /// The main title.
    pub fn title(&self) -> (r: &str)
        ensures
            r@ == self@.title(),
    {
        match self {
            ArtifactDisplayTitle::Simple(s) => s.as_str(),
            ArtifactDisplayTitle::Descriptive { descriptive_title, .. } => descriptive_title.as_str(),
        }
    }

    /// The line below the title; empty for a simple title.
    pub fn subtitle(&self) -> (r: &str)
        ensures
            r@ == self@.subtitle(),
    {
        match self {
            ArtifactDisplayTitle::Simple(_s) => {
                let empty = "";
                proof {
                    reveal_strlit("");
                    assert(empty@ =~= Seq::<char>::empty());
                }
                empty
            },
            ArtifactDisplayTitle::Descriptive { file_name, .. } => file_name.as_str(),
        }
    }
}

impl From<String> for ArtifactDisplayTitle {
    /// A simple title.
    fn from(v: String) -> (r: Self) {
        ArtifactDisplayTitle::Simple(v)
    }
}

impl vstd::std_specs::convert::FromSpecImpl<String> for ArtifactDisplayTitle {
    open spec fn obeys_from_spec() -> bool {
        true
    }

    open spec fn from_spec(v: String) -> Self {
        ArtifactDisplayTitle::Simple(v)
    }
}

/// Where an artifact is found.
pub enum ArtifactPath {
    /// A file on the endpoints, relative to the release's directory.
    File(String),
    /// An absolute URL elsewhere.
    RemoteUrl(String),
    /// Nowhere yet: the artifact is only described.
    Empty,
}

/// An `ArtifactPath` as plain text.
pub enum ArtifactPathView {
    File(Seq<char>),
    RemoteUrl(Seq<char>),
    Empty,
}

impl View for ArtifactPath {
    type V = ArtifactPathView;

    open spec fn view(&self) -> ArtifactPathView {
        match *self {
            ArtifactPath::File(s) => ArtifactPathView::File(s@),
            ArtifactPath::RemoteUrl(s) => ArtifactPathView::RemoteUrl(s@),
            ArtifactPath::Empty => ArtifactPathView::Empty,
        }
    }
}

/// What an artifact type says about one artifact: how to show it and where it
/// is found.
pub struct ArtifactInfo {
    display_name: ArtifactDisplayTitle,
    extra_info_markdown: Option<String>,
    icon: Option<String>,
    path: ArtifactPath,
}

/// An `ArtifactInfo` as plain text.
pub struct ArtifactInfoView {
    pub display_name: ArtifactDisplayTitleView,
    pub extra_info_markdown: Option<Seq<char>>,
    pub icon: Option<Seq<char>>,
    pub path: ArtifactPathView,
}

impl View for ArtifactInfo {
    type V = ArtifactInfoView;

    closed spec fn view(&self) -> ArtifactInfoView {
        ArtifactInfoView {
            display_name: self.display_name@,
            extra_info_markdown: opt_view(self.extra_info_markdown),
            icon: opt_view(self.icon),
            path: self.path@,
        }
    }
}

impl ArtifactInfoView {
    /// The path of a file artifact on an endpoint, below the endpoint's URL.
    pub open spec fn file_path(self, product_name: Seq<char>, version_name: Seq<char>) -> Option<
        Seq<char>,
    > {
        match self.path {
            ArtifactPathView::File(file_name) => Some(
                product_name + "/"@ + version_name + "/"@ + file_name,
            ),
            _ => None,
        }
    }
}

impl ArtifactInfo {
    /// Create a new artifact info for a file stored on the endpoint. The file path is relative
    /// to the release's directory on the endpoint.
    pub fn new_file(display_name: ArtifactDisplayTitle, icon: Option<String>, file_path: String) -> (r:
        Self)
        ensures
            r@ == (ArtifactInfoView {
                display_name: display_name@,
                extra_info_markdown: None,
                icon: opt_view(icon),
                path: ArtifactPathView::File(file_path@),
            }),
    {
        Self { display_name, extra_info_markdown: None, icon, path: ArtifactPath::File(file_path) }
    }

    /// Create a new artifact info that works via a remote URL.
    pub fn new_url(display_name: ArtifactDisplayTitle, icon: Option<String>, remote_url: String) -> (r:
        Self)
        ensures
            r@ == (ArtifactInfoView {
                display_name: display_name@,
                extra_info_markdown: None,
                icon: opt_view(icon),
                path: ArtifactPathView::RemoteUrl(remote_url@),
            }),
    {
        Self {
            display_name,
            extra_info_markdown: None,
            icon,
            path: ArtifactPath::RemoteUrl(remote_url),
        }
    }

    /// Create a new artifact info that is shown but has no download of its own.
    pub fn new_empty(display_name: ArtifactDisplayTitle, icon: Option<String>) -> (r: Self)
        ensures
            r@ == (ArtifactInfoView {
                display_name: display_name@,
                extra_info_markdown: None,
                icon: opt_view(icon),
                path: ArtifactPathView::Empty,
            }),
    {
        Self { display_name, extra_info_markdown: None, icon, path: ArtifactPath::Empty }
    }

    /// Sets the Markdown text shown with the artifact.
    pub fn set_extra_info_markdown(&mut self, value: String)
        ensures
            final(self)@ == (ArtifactInfoView {
                extra_info_markdown: Some(value@),
                ..old(self)@
            }),
    {
        self.extra_info_markdown = Some(value);
    }

    /// The title under which the artifact is shown.
    pub fn display_name(&self) -> (r: &ArtifactDisplayTitle)
        ensures
            r@ == self@.display_name,
    {
        &self.display_name
    }

    /// The artifact's icon.
    pub fn icon(&self) -> (r: Option<&String>)
        ensures
            r is Some <==> self@.icon is Some,
            r is Some ==> r->0@ == self@.icon->0,
    {
        self.icon.as_ref()
    }

    /// The Markdown text shown with the artifact.
    pub fn extra_info_markdown(&self) -> (r: Option<&String>)
        ensures
            r is Some <==> self@.extra_info_markdown is Some,
            r is Some ==> r->0@ == self@.extra_info_markdown->0,
    {
        self.extra_info_markdown.as_ref()
    }

    /// The remote URL of an artifact that has one.
    pub fn remote_url(&self) -> (r: Option<&str>)
        ensures
            match r {
                Some(url) => self@.path == ArtifactPathView::RemoteUrl(url@),
                None => !(self@.path is RemoteUrl),
            },
    {
        match &self.path {
            ArtifactPath::RemoteUrl(url) => Some(url.as_str()),
            _ => None,
        }
    }

    /// The path of a file artifact below an endpoint's URL; `None` for an artifact
    /// that is no file on the endpoints.
    pub fn file_path(&self, product_name: &str, version_name: &str) -> (r: Option<String>)
        ensures
            opt_view(r) == self@.file_path(product_name@, version_name@),
    {
        match &self.path {
            ArtifactPath::File(file_name) => {
                let mut out = concat3(product_name, "/", version_name);
                out.append("/");
                out.append(file_name.as_str());
                Some(out)
            },
            _ => None,
        }
    }
}

/// What answers a request for a nightly artifact.
pub enum NightlyArtifactResponder {
    /// The CI artifact of this name, served from the local cache.
    File(String),
    /// A redirect to this URL.
    Redirect(String),
    /// A Flatpak reference file.
    Flatpakref(Flatpakref),
}

/// A `NightlyArtifactResponder` as plain text.
pub enum NightlyArtifactResponderView {
    File(Seq<char>),
    Redirect(Seq<char>),
    Flatpakref(FlatpakrefView),
}

impl View for NightlyArtifactResponder {
    type V = NightlyArtifactResponderView;

    open spec fn view(&self) -> NightlyArtifactResponderView {
        match *self {
            NightlyArtifactResponder::File(s) => NightlyArtifactResponderView::File(s@),
            NightlyArtifactResponder::Redirect(s) => NightlyArtifactResponderView::Redirect(s@),
            NightlyArtifactResponder::Flatpakref(f) => NightlyArtifactResponderView::Flatpakref(f@),
        }
    }
}

/// The view of a resolution's outcome.
pub open spec fn info_result(r: Result<ArtifactInfo, ArtifactError>) -> Result<
    ArtifactInfoView,
    ArtifactError,
> {
    match r {
        Ok(info) => Ok(info@),
        Err(e) => Err(e),
    }
}

/// The view of a nightly download's outcome.
pub open spec fn responder_result(r: Result<NightlyArtifactResponder, ArtifactError>) -> Result<
    NightlyArtifactResponderView,
    ArtifactError,
> {
    match r {
        Ok(responder) => Ok(responder@),
        Err(e) => Err(e),
    }
}

/// A release on a code hosting site whose notes an artifact type wants to show.
pub struct ReleaseRequest {
    pub org: String,
    pub repo: String,
    pub tag: String,
}

/// A `ReleaseRequest` as plain text.
pub struct ReleaseRequestView {
    pub org: Seq<char>,
    pub repo: Seq<char>,
    pub tag: Seq<char>,
}

impl View for ReleaseRequest {
    type V = ReleaseRequestView;

    open spec fn view(&self) -> ReleaseRequestView {
        ReleaseRequestView { org: self.org@, repo: self.repo@, tag: self.tag@ }
    }
}

/// The view of an optional request.
pub open spec fn request_view(r: Option<ReleaseRequest>) -> Option<ReleaseRequestView> {
    match r {
        Some(r) => Some(r@),
        None => None,
    }
}

/// The view of an optional text.
pub open spec fn opt_str_view(s: Option<&str>) -> Option<Seq<char>> {
    match s {
        Some(s) => Some(s@),
        None => None,
    }
}

/// The logic of one kind of artifact. Each operation is a function of its
/// arguments; an artifact type never answers `NoFallback`, which is the
/// registry's own error.
pub trait ArtifactType: Send + Sync {
    /// The release whose notes `describe` wants, if it wants any.
    spec fn release_wanted(
        &self,
        setting: Option<&SettingValue>,
        version_name: Seq<char>,
        version_info: VersionInfo,
    ) -> Option<
        ReleaseRequestView,
    >;

    /// The entries that `describe` adds, given the notes of the release that was
    /// asked for, or `None` where they could not be had.
    spec fn description(
        &self,
        setting: Option<&SettingValue>,
        version_name: Seq<char>,
        version_info: VersionInfo,
        release_notes: Option<Seq<char>>,
    ) -> TextEntries;

    /// Says which release's notes are needed to describe `version`.
    fn describe_request(&self, setting: Option<&SettingValue>, version: &NamedVersion) -> (r: Option<
        ReleaseRequest,
    >)
        ensures
            request_view(r) == self.release_wanted(setting, version.name@, *version.info),
    ;

    /// Adds to `description_map` what the artifact type has to say about
    /// `version`, each entry a label and a Markdown text.
    fn describe(
        &self,
        description_map: &mut OrderedMap<String>,
        setting: Option<&SettingValue>,
        version: &NamedVersion,
        release_notes: Option<&str>,
    )
        ensures
            text_entries(*final(description_map)) == text_insert_all(
                text_entries(*old(description_map)),
                self.description(setting, version.name@, *version.info, opt_str_view(release_notes)),
            ),
    ;

    /// What `get_artifact` answers.
    spec fn artifact(
        &self,
        product_name: Seq<char>,
        version: Seq<char>,
        download_spec: DownloadSpec,
        setting: Option<&SettingValue>,
    ) -> Result<ArtifactInfoView, ArtifactError>;

    /// What `get_nightly_artifact_info` answers.
    spec fn nightly_artifact_info(
        &self,
        product_name: Seq<char>,
        download_spec: DownloadSpec,
        setting: Option<&SettingValue>,
    ) -> Result<ArtifactInfoView, ArtifactError>;

    /// What `get_nightly_artifact_download` answers.
    spec fn nightly_artifact_download(
        &self,
        product_name: Seq<char>,
        download_spec: DownloadSpec,
        setting: Option<&SettingValue>,
        nightly_config: NightlyConfig,
    ) -> Result<NightlyArtifactResponderView, ArtifactError>;

    /// Describes the artifact of a released version.
    fn get_artifact(
        &self,
        product_name: &str,
        version: &str,
        download_spec: &DownloadSpec,
        setting: Option<&SettingValue>,
    ) -> (r: Result<ArtifactInfo, ArtifactError>)
        ensures
            info_result(r) == self.artifact(product_name@, version@, *download_spec, setting),
            !(r matches Err(ArtifactError::NoFallback)),
    ;

    /// Describes the artifact of the nightly build.
    fn get_nightly_artifact_info(
        &self,
        product_name: &str,
        download_spec: &DownloadSpec,
        setting: Option<&SettingValue>,
    ) -> (r: Result<ArtifactInfo, ArtifactError>)
        ensures
            info_result(r) == self.nightly_artifact_info(product_name@, *download_spec, setting),
            !(r matches Err(ArtifactError::NoFallback)),
    ;

    /// Says how the nightly build's artifact is served.
    fn get_nightly_artifact_download(
        &self,
        product_name: &str,
        download_spec: &DownloadSpec,
        setting: Option<&SettingValue>,
        nightly_config: &NightlyConfig,
    ) -> (r: Result<NightlyArtifactResponder, ArtifactError>)
        ensures
            responder_result(r) == self.nightly_artifact_download(
                product_name@,
                *download_spec,
                setting,
                *nightly_config,
            ),
            !(r matches Err(ArtifactError::NoFallback)),
    ;
}

/// The registry: every artifact type under its key, and under `FALLBACK_KEY`
/// the one that serves the keys that have none. `T` is the type of the
/// registered artifact types; `BuiltinArtifactType` holds those of the library.
pub struct ArtifactTypes<T: ArtifactType>(pub OrderedMap<T>);

impl<T: ArtifactType> ArtifactTypes<T> {
    /// The position of the artifact type that serves `key`: the one registered
    /// under `key`, else the fallback, else none.
    pub open spec fn chosen(&self, key: Seq<char>) -> Option<int> {
        if self.0.has(key) {
            Some(self.0.position(key))
        } else if self.0.has(FALLBACK_KEY@) {
            Some(self.0.position(FALLBACK_KEY@))
        } else {
            None
        }
    }

    /// The artifact type that serves `key`, where there is one.
    pub open spec fn strategy(&self, key: Seq<char>) -> T {
        self.0.values()[self.chosen(key)->0]
    }

    /// A registry without artifact types.
    pub fn new() -> (r: Self)
        ensures
            r.0.wf(),
            r.0.keys() == Seq::<Seq<char>>::empty(),
            forall|k: Seq<char>| !r.0.has(k),
    {
        Self(OrderedMap::new())
    }

    /// A registry with these artifact types.
    pub fn from_map(v: OrderedMap<T>) -> (r: Self)
        ensures
            r.0 == v,
    {
        Self(v)
    }

    /// Registers `artifact_type` under `key`, in place of what was there.
    pub fn register(&mut self, key: String, artifact_type: T)
        ensures
            final(self).0.wf(),
            final(self).0.has(key@),
            final(self).0.value_of(key@) == artifact_type,
            forall|k: Seq<char>| k != key@ ==> final(self).0.has(k) == old(self).0.has(k),
            forall|k: Seq<char>|
                old(self).0.has(k) && k != key@ ==> final(self).0.value_of(k) == old(self).0.value_of(k),
            old(self).0.has(key@) ==> final(self).0.keys() == old(self).0.keys(),
            !old(self).0.has(key@) ==> final(self).0.keys() == old(self).0.keys().push(key@),
    {
        self.0.insert(key, artifact_type);
    }

    /// The artifact type that serves `key`: its own, or the fallback. `NoFallback`
    /// where the registry has neither.
    pub fn lookup(&self, key: &str) -> (r: Result<&T, ArtifactError>)
        ensures
            r is Ok <==> self.chosen(key@) is Some,
            r is Ok ==> *r->Ok_0 == self.strategy(key@),
            r is Err ==> r->Err_0 == ArtifactError::NoFallback,
            self.0.has(FALLBACK_KEY@) ==> r is Ok,
            self.0.has(key@) ==> r is Ok && *r->Ok_0 == self.0.value_of(key@),
            !self.0.has(key@) && self.0.has(FALLBACK_KEY@) ==> *r->Ok_0 == self.0.value_of(
                FALLBACK_KEY@,
            ),
    {
        if let Some(at_info) = self.0.get(key) {
            Ok(at_info)
        } else if let Some(at_fallback) = self.0.get(FALLBACK_KEY) {
            Ok(at_fallback)
        } else {
            Err(ArtifactError::NoFallback)
        }
    }
}

/// What resolving `key` answers: what the artifact type that serves the key
/// answers, and `NoFallback` where none serves it.
pub open spec fn artifact_info_for<T: ArtifactType>(
    ats: &ArtifactTypes<T>,
    key: Seq<char>,
    product_name: Seq<char>,
    version_name: Seq<char>,
    download_spec: DownloadSpec,
    setting: Option<&SettingValue>,
) -> Result<ArtifactInfoView, ArtifactError> {
    if ats.chosen(key) is Some {
        ats.strategy(key).artifact(product_name, version_name, download_spec, setting)
    } else {
        Err(ArtifactError::NoFallback)
    }
}

/// What resolving the nightly build of `key` answers.
pub open spec fn artifact_nightly_info_for<T: ArtifactType>(
    ats: &ArtifactTypes<T>,
    key: Seq<char>,
    product_name: Seq<char>,
    download_spec: DownloadSpec,
    setting: Option<&SettingValue>,
) -> Result<ArtifactInfoView, ArtifactError> {
    if ats.chosen(key) is Some {
        ats.strategy(key).nightly_artifact_info(product_name, download_spec, setting)
    } else {
        Err(ArtifactError::NoFallback)
    }
}

/// What a request for the nightly build of `key` answers.
pub open spec fn artifact_nightly_download_for<T: ArtifactType>(
    ats: &ArtifactTypes<T>,
    key: Seq<char>,
    product_name: Seq<char>,
    download_spec: DownloadSpec,
    setting: Option<&SettingValue>,
    nightly_config: NightlyConfig,
) -> Result<NightlyArtifactResponderView, ArtifactError> {
    if ats.chosen(key) is Some {
        ats.strategy(key).nightly_artifact_download(
            product_name,
            download_spec,
            setting,
            nightly_config,
        )
    } else {
        Err(ArtifactError::NoFallback)
    }
}

/// Resolves the artifact `key` of a released version with the artifact type
/// that serves the key. `NoFallback` comes back exactly when none does.
pub fn get_artifact_info<T: ArtifactType>(
    ats: &ArtifactTypes<T>,
    key: &str,
    product_name: &str,
    version_name: &str,
    download_spec: &DownloadSpec,
    setting: Option<&SettingValue>,
) -> (r: Result<ArtifactInfo, ArtifactError>)
    ensures
        info_result(r) == artifact_info_for(
            ats,
            key@,
            product_name@,
            version_name@,
            *download_spec,
            setting,
        ),
        r matches Err(ArtifactError::NoFallback) <==> ats.chosen(key@) is None,
        ats.0.has(FALLBACK_KEY@) ==> !(r matches Err(ArtifactError::NoFallback)),
        !ats.0.has(key@) && ats.0.has(FALLBACK_KEY@) ==> info_result(r) == ats.0.value_of(
            FALLBACK_KEY@,
        ).artifact(product_name@, version_name@, *download_spec, setting),
{
    match ats.lookup(key) {
        Ok(at) => at.get_artifact(product_name, version_name, download_spec, setting),
        Err(e) => Err(e),
    }
}

/// Resolves the nightly build of the artifact `key`.
pub fn get_artifact_nightly_info<T: ArtifactType>(
    ats: &ArtifactTypes<T>,
    key: &str,
    product_name: &str,
    download_spec: &DownloadSpec,
    setting: Option<&SettingValue>,
) -> (r: Result<ArtifactInfo, ArtifactError>)
    ensures
        info_result(r) == artifact_nightly_info_for(
            ats,
            key@,
            product_name@,
            *download_spec,
            setting,
        ),
        r matches Err(ArtifactError::NoFallback) <==> ats.chosen(key@) is None,
        ats.0.has(FALLBACK_KEY@) ==> !(r matches Err(ArtifactError::NoFallback)),
{
    match ats.lookup(key) {
        Ok(at) => at.get_nightly_artifact_info(product_name, download_spec, setting),
        Err(e) => Err(e),
    }
}

/// Says how the nightly build of the artifact `key` is served.
pub fn get_artifact_nightly_download<T: ArtifactType>(
    ats: &ArtifactTypes<T>,
    key: &str,
    product_name: &str,
    download_spec: &DownloadSpec,
    setting: Option<&SettingValue>,
    nightly_config: &NightlyConfig,
) -> (r: Result<NightlyArtifactResponder, ArtifactError>)
    ensures
        responder_result(r) == artifact_nightly_download_for(
            ats,
            key@,
            product_name@,
            *download_spec,
            setting,
            *nightly_config,
        ),
        r matches Err(ArtifactError::NoFallback) <==> ats.chosen(key@) is None,
        ats.0.has(FALLBACK_KEY@) ==> !(r matches Err(ArtifactError::NoFallback)),
{
    match ats.lookup(key) {
        Ok(at) => at.get_nightly_artifact_download(
            product_name,
            download_spec,
            setting,
            nightly_config,
        ),
        Err(e) => Err(e),
    }
}

} // verus!

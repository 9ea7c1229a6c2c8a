//! Flatpak packages on Flathub, one artifact type for each branch.
use crate::artifacttype::{
    ArtifactDisplayTitle, ArtifactDisplayTitleView, ArtifactError, ArtifactInfo, ArtifactInfoView,
    ArtifactPathView, ArtifactType, NightlyArtifactResponder, NightlyArtifactResponderView,
    ReleaseRequest, ReleaseRequestView,
};
use crate::nightly::NightlyConfig;
use crate::ordered_map::{OrderedMap, TextEntries};
use crate::release_map::NamedVersion;
use crate::routes::Status;
use crate::settings::{setting_string, SettingValue};
use crate::storage::{DownloadSpec, Product, VersionInfo};
use crate::text::concat3;
use std::marker::PhantomData;
use vstd::prelude::*;

verus! {

pub const FLATHUB_URL: &'static str = "https://dl.flathub.org/repo/";

pub const FLATHUB_RUNTIME_REPO: &'static str = "https://dl.flathub.org/repo/flathub.flatpakrepo";

/// A branch of Flathub.
pub trait FlathubBranch: Send + Sync {
    /// The key under which the branch's artifact type is registered.
    spec fn artifact_key_view() -> Seq<char>;

    /// The name of the branch.
    spec fn branch_view() -> Seq<char>;

    /// The key under which the branch's artifact type is registered.
    fn artifact_key() -> (r: &'static str)
        ensures
            r@ == Self::artifact_key_view(),
    ;

    /// The name of the branch.
    fn branch() -> (r: &'static str)
        ensures
            r@ == Self::branch_view(),
    ;
}

/// The stable branch.
pub struct FlathubStable;

impl FlathubBranch for FlathubStable {
    open spec fn artifact_key_view() -> Seq<char> {
        "flathub"@
    }

    open spec fn branch_view() -> Seq<char> {
        "stable"@
    }

    fn artifact_key() -> (r: &'static str) {
        "flathub"
    }

    fn branch() -> (r: &'static str) {
        "stable"
    }
}

/// The beta branch.
pub struct FlathubBeta;

impl FlathubBranch for FlathubBeta {
    open spec fn artifact_key_view() -> Seq<char> {
        "flathub_beta"@
    }

    open spec fn branch_view() -> Seq<char> {
        "beta"@
    }

    fn artifact_key() -> (r: &'static str) {
        "flathub_beta"
    }

    fn branch() -> (r: &'static str) {
        "beta"
    }
}

/// Packages on the branch `T` of Flathub. The product's setting is the
/// package's id.
pub struct FlathubArtifactType<T: FlathubBranch>(pub PhantomData<T>);

/// What is said below a Flathub artifact of the commit `download_value`.
pub open spec fn flathub_note(download_value: Seq<char>) -> Seq<char> {
    "See [Quick Setup](https://flatpak.org/setup/) to get started.\n\n*Link is to latest stable. To [downgrade](https://docs.flatpak.org/en/latest/tips-and-tricks.html#downgrading) to this release use commit **"@
        + download_value + "**.*"@
}

impl<T: FlathubBranch> ArtifactType for FlathubArtifactType<T> {
    open spec fn release_wanted(
        &self,
        setting: Option<&SettingValue>,
        version_name: Seq<char>,
        version_info: VersionInfo,
    ) -> Option<ReleaseRequestView> {
        None
    }

    open spec fn description(
        &self,
        setting: Option<&SettingValue>,
        version_name: Seq<char>,
        version_info: VersionInfo,
        release_notes: Option<Seq<char>>,
    ) -> TextEntries {
        Seq::empty()
    }

    open spec fn artifact(
        &self,
        product_name: Seq<char>,
        version: Seq<char>,
        download_spec: DownloadSpec,
        setting: Option<&SettingValue>,
    ) -> Result<ArtifactInfoView, ArtifactError> {
        if setting_string(setting) is Some {
            Ok(
                ArtifactInfoView {
                    display_name: ArtifactDisplayTitleView::Simple("Linux Flatpak"@),
                    extra_info_markdown: Some(flathub_note(download_spec.url_view())),
                    icon: Some("flatpak.png"@),
                    path: ArtifactPathView::RemoteUrl(
                        "/"@ + T::artifact_key_view() + "/"@ + product_name + "/"@ + version,
                    ),
                },
            )
        } else {
            Err(ArtifactError::MissingSetting)
        }
    }

    open spec fn nightly_artifact_info(
        &self,
        product_name: Seq<char>,
        download_spec: DownloadSpec,
        setting: Option<&SettingValue>,
    ) -> Result<ArtifactInfoView, ArtifactError> {
        Err(ArtifactError::NotSupported)
    }

    open spec fn nightly_artifact_download(
        &self,
        product_name: Seq<char>,
        download_spec: DownloadSpec,
        setting: Option<&SettingValue>,
        nightly_config: NightlyConfig,
    ) -> Result<NightlyArtifactResponderView, ArtifactError> {
        Err(ArtifactError::NotSupported)
    }

    fn describe_request(&self, _setting: Option<&SettingValue>, _version: &NamedVersion) -> (r: Option<
        ReleaseRequest,
    >) {
        None
    }

    fn describe(
        &self,
        _description_map: &mut OrderedMap<String>,
        _setting: Option<&SettingValue>,
        _version: &NamedVersion,
        _release_notes: Option<&str>,
    ) {
    }

    fn get_artifact(
        &self,
        product_name: &str,
        version: &str,
        download_spec: &DownloadSpec,
        setting: Option<&SettingValue>,
    ) -> (r: Result<ArtifactInfo, ArtifactError>) {
        match setting {
            Some(SettingValue::String(_)) => {
                let mut link = concat3("/", T::artifact_key(), "/");
                link.append(product_name);
                link.append("/");
                link.append(version);
                let mut info = ArtifactInfo::new_url(
                    ArtifactDisplayTitle::simple("Linux Flatpak"),
                    Some(String::from_str("flatpak.png")),
                    link,
                );
                info.set_extra_info_markdown(
                    concat3(
                        "See [Quick Setup](https://flatpak.org/setup/) to get started.\n\n*Link is to latest stable. To [downgrade](https://docs.flatpak.org/en/latest/tips-and-tricks.html#downgrading) to this release use commit **",
                        download_spec.url(),
                        "**.*",
                    ),
                );
                Ok(info)
            },
            _ => Err(ArtifactError::MissingSetting),
        }
    }

    fn get_nightly_artifact_info(
        &self,
        _product_name: &str,
        _download_spec: &DownloadSpec,
        _setting: Option<&SettingValue>,
    ) -> (r: Result<ArtifactInfo, ArtifactError>) {
        Err(ArtifactError::NotSupported)
    }

    fn get_nightly_artifact_download(
        &self,
        _product_name: &str,
        _download_spec: &DownloadSpec,
        _setting: Option<&SettingValue>,
        _nightly_config: &NightlyConfig,
    ) -> (r: Result<NightlyArtifactResponder, ArtifactError>) {
        Err(ArtifactError::NotSupported)
    }
}

/// The content of a `.flatpakref` file for a package on Flathub.
pub struct Flatpakref {
    pub name: String,
    pub branch: &'static str,
    pub title: String,
    pub url: &'static str,
    pub runtime_repo: &'static str,
}

impl Flatpakref {
    /// The text of the file.
    pub open spec fn file_text(self) -> Seq<char> {
        "[Flatpak Ref]\nVersion=1\nName="@ + self.name@ + "\nBranch="@ + self.branch@ + "\nTitle="@
            + self.title@ + "\nUrl="@ + self.url@ + "\nRuntimeRepo="@ + self.runtime_repo@ + "\n"@
    }

    /// The text of the file.
    pub fn into_string(self) -> (r: String)
        ensures
            r@ == self.file_text(),
    {
        let mut out = String::from_str("[Flatpak Ref]\nVersion=1\nName=");
        out.append(self.name.as_str());
        out.append("\nBranch=");
        out.append(self.branch);
        out.append("\nTitle=");
        out.append(self.title.as_str());
        out.append("\nUrl=");
        out.append(self.url);
        out.append("\nRuntimeRepo=");
        out.append(self.runtime_repo);
        out.append("\n");
        out
    }
}

/// The id of the package of `product` on Flathub, where the catalog has the
/// product and its setting under `key` is a package id.
pub open spec fn flathub_package(products: OrderedMap<Product>, product: Seq<char>, key: Seq<char>) -> Option<
    Seq<char>,
> {
    if products.has(product) && products.value_of(product).settings@.contains_key(key) {
        match products.value_of(product).settings@[key] {
            SettingValue::String(id) => Some(id@),
            _ => None,
        }
    } else {
        None
    }
}

/// Whether `r` answers a request for the `.flatpakref` file of `product` on the
/// branch `branch`: the file of the product's package, or `NotFound` where the
/// product has none.
pub open spec fn is_flathub_answer(
    r: Result<Flatpakref, Status>,
    products: OrderedMap<Product>,
    product: Seq<char>,
    key: Seq<char>,
    branch: Seq<char>,
) -> bool {
    match flathub_package(products, product, key) {
        Some(id) => r matches Ok(f) && {
            &&& f.name@ == id
            &&& f.branch@ == branch
            &&& f.title@ == products.value_of(product).name@
            &&& f.url@ == FLATHUB_URL@
            &&& f.runtime_repo@ == FLATHUB_RUNTIME_REPO@
        },
        None => r matches Err(Status::NotFound),
    }
}

/// The `.flatpakref` file of `product` for the branch `branch`, whose artifact
/// type is registered under `key`.
pub fn get_flatpakref_impl(
    products: &OrderedMap<Product>,
    product: &str,
    key: &'static str,
    branch: &'static str,
) -> (r: Result<Flatpakref, Status>)
    ensures
        is_flathub_answer(r, *products, product@, key@, branch@),
{
    if let Some(product_data) = products.get(product) {
        // A flatpakref cannot name a commit, so the latest build is served for every release.
        if let Some(SettingValue::String(flatpak_id)) = product_data.settings.get(key) {
            Ok(
                Flatpakref {
                    name: flatpak_id.clone(),
                    branch,
                    title: product_data.name.clone(),
                    url: FLATHUB_URL,
                    runtime_repo: FLATHUB_RUNTIME_REPO,
                },
            )
        } else {
            Err(Status::NotFound)
        }
    } else {
        Err(Status::NotFound)
    }
}

/// The `.flatpakref` file of a product on the stable branch. The host that only
/// serves release information has none.
pub fn get_flatpakref(is_release_info: bool, products: &OrderedMap<Product>, product: &str) -> (r:
    Result<Flatpakref, Status>)
    ensures
        is_release_info ==> r matches Err(Status::NotFound),
        !is_release_info ==> is_flathub_answer(r, *products, product@, "flathub"@, "stable"@),
{
    if is_release_info {
        Err(Status::NotFound)
    } else {
        get_flatpakref_impl(products, product, FlathubStable::artifact_key(), FlathubStable::branch())
    }
}

/// The `.flatpakref` file of a product on the beta branch.
pub fn get_flatpakref_beta(is_release_info: bool, products: &OrderedMap<Product>, product: &str) -> (r:
    Result<Flatpakref, Status>)
    ensures
        is_release_info ==> r matches Err(Status::NotFound),
        !is_release_info ==> is_flathub_answer(r, *products, product@, "flathub_beta"@, "beta"@),
{
    if is_release_info {
        Err(Status::NotFound)
    } else {
        get_flatpakref_impl(products, product, FlathubBeta::artifact_key(), FlathubBeta::branch())
    }
}

} // verus!

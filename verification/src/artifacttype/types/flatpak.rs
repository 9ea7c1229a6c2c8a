//! Flatpak packages, from Flathub or from a repository of the product's own.
use crate::artifacttype::{
    info_result, ArtifactDisplayTitle, ArtifactDisplayTitleView, ArtifactError,
    ArtifactInfo, ArtifactInfoView, ArtifactPathView, ArtifactType, NightlyArtifactResponder,
    NightlyArtifactResponderView,
};
use crate::nightly::NightlyConfig;
use crate::ordered_map::{OrderedMap, TextEntries};
use crate::release_map::NamedVersion;
use crate::artifacttype::{ReleaseRequest, ReleaseRequestView};
use crate::routes::Status;
use crate::settings::{bool_entry, string_entry, SettingValue};
use crate::storage::{DownloadSpec, Product, VersionInfo};
use crate::text::concat3;
use vstd::prelude::*;

verus! {

pub const FLATPAK_CUSTOM_ARTIFACT_KEY: &'static str = "flatpak_custom";

pub const FLATHUB_STABLE_ARTIFACT_KEY: &'static str = "flathub";

pub const FLATHUB_BETA_ARTIFACT_KEY: &'static str = "flathub_beta";

pub const FLATHUB_URL: &'static str = "https://dl.flathub.org/repo/";

pub const FLATHUB_RUNTIME_REPO: &'static str = "https://dl.flathub.org/repo/flathub.flatpakrepo";

/// Title of every Flatpak artifact.
pub const FLATPAK_TITLE: &'static str = "Linux Flatpak";

/// Icon of every Flatpak artifact.
pub const FLATPAK_ICON: &'static str = "flatpak.png";

/// Shown with artifacts from Flathub.
pub const FLATPAK_QUICK_SETUP: &'static str =
    "See [Quick Setup](https://flatpak.org/setup/) to get started.";

/// A Flatpak repository.
#[derive(Debug)]
pub struct FlatpakRepo {
    url: String,
    suggested_name: String,
    gpg_verify: bool,
    branch: String,
}

/// A `FlatpakRepo` as plain text.
pub struct FlatpakRepoView {
    pub url: Seq<char>,
    pub suggested_name: Seq<char>,
    pub gpg_verify: bool,
    pub branch: Seq<char>,
}

impl View for FlatpakRepo {
    type V = FlatpakRepoView;

    closed spec fn view(&self) -> FlatpakRepoView {
        FlatpakRepoView {
            url: self.url@,
            suggested_name: self.suggested_name@,
            gpg_verify: self.gpg_verify,
            branch: self.branch@,
        }
    }
}

impl FlatpakRepo {
    /// A repository of the product's own.
    pub fn flatpak_custom(url: String, suggested_name: String, gpg_verify: bool, branch: String) -> (r:
        Self)
        ensures
            r@ == (FlatpakRepoView {
                url: url@,
                suggested_name: suggested_name@,
                gpg_verify,
                branch: branch@,
            }),
    {
        Self { url, suggested_name, gpg_verify, branch }
    }

    /// Flathub's stable branch.
    pub fn flathub_stable() -> (r: Self)
        ensures
            r@ == (FlatpakRepoView {
                url: FLATHUB_URL@,
                suggested_name: "Flathub"@,
                gpg_verify: true,
                branch: "stable"@,
            }),
    {
        Self {
            url: String::from_str(FLATHUB_URL),
            suggested_name: String::from_str("Flathub"),
            gpg_verify: true,
            branch: String::from_str("stable"),
        }
    }

    /// Flathub's beta branch.
    pub fn flathub_beta() -> (r: Self)
        ensures
            r@ == (FlatpakRepoView {
                url: FLATHUB_URL@,
                suggested_name: "Flathub Beta"@,
                gpg_verify: true,
                branch: "beta"@,
            }),
    {
        Self {
            url: String::from_str(FLATHUB_URL),
            suggested_name: String::from_str("Flathub Beta"),
            gpg_verify: true,
            branch: String::from_str("beta"),
        }
    }

    /// A copy of the repository.
    pub fn duplicate(&self) -> (r: Self)
        ensures
            r@ == self@,
    {
        Self {
            url: self.url.clone(),
            suggested_name: self.suggested_name.clone(),
            gpg_verify: self.gpg_verify,
            branch: self.branch.clone(),
        }
    }
}

/// The content of a `.flatpakref` file.
pub struct Flatpakref {
    name: String,
    branch: String,
    title: String,
    url: String,
    runtime_repo: String,
    gpg_verify: bool,
}

/// A `Flatpakref` as plain text.
pub struct FlatpakrefView {
    pub name: Seq<char>,
    pub branch: Seq<char>,
    pub title: Seq<char>,
    pub url: Seq<char>,
    pub runtime_repo: Seq<char>,
    pub gpg_verify: bool,
}

impl View for Flatpakref {
    type V = FlatpakrefView;

    closed spec fn view(&self) -> FlatpakrefView {
        FlatpakrefView {
            name: self.name@,
            branch: self.branch@,
            title: self.title@,
            url: self.url@,
            runtime_repo: self.runtime_repo@,
            gpg_verify: self.gpg_verify,
        }
    }
}

/// `true` or `false`, as a `.flatpakref` file writes it.
pub open spec fn bool_text(b: bool) -> Seq<char> {
    if b {
        "true"@
    } else {
        "false"@
    }
}

impl FlatpakrefView {
    /// The reference for `package_id` in `repo`, shown as `title`.
    pub open spec fn of(repo: FlatpakRepoView, package_id: Seq<char>, title: Seq<char>) -> Self {
        FlatpakrefView {
            name: package_id,
            branch: repo.branch,
            title,
            url: repo.url,
            runtime_repo: FLATHUB_RUNTIME_REPO@,
            gpg_verify: repo.gpg_verify,
        }
    }

    /// The text of the file.
    pub open spec fn file_text(self) -> Seq<char> {
        "[Flatpak Ref]\nVersion=1\nName="@ + self.name + "\nBranch="@ + self.branch + "\nTitle="@
            + self.title + "\nUrl="@ + self.url + "\nRuntimeRepo="@ + self.runtime_repo
            + "\ngpg-verify="@ + bool_text(self.gpg_verify) + "\ngpg-verify-summary="@ + bool_text(
            self.gpg_verify,
        ) + "\n"@
    }

    /// The name under which the file is offered.
    pub open spec fn file_name(self) -> Seq<char> {
        self.name + ".flatpakref"@
    }
}

impl Flatpakref {
    /// The reference for `package_id` in `repo`, shown as `title`.
    pub fn new(repo: &FlatpakRepo, package_id: &str, title: &str) -> (r: Self)
        ensures
            r@ == FlatpakrefView::of(repo@, package_id@, title@),
    {
        Flatpakref {
            name: String::from_str(package_id),
            branch: repo.branch.clone(),
            title: String::from_str(title),
            url: repo.url.clone(),
            runtime_repo: String::from_str(FLATHUB_RUNTIME_REPO),
            gpg_verify: repo.gpg_verify,
        }
    }

    /// The name under which the file is offered for download.
    pub fn file_name(&self) -> (r: String)
        ensures
            r@ == self@.file_name(),
    {
        let mut out = self.name.clone();
        out.append(".flatpakref");
        out
    }

    /// The text of the file.
    pub fn into_string(self) -> (r: String)
        ensures
            r@ == self@.file_text(),
    {
        let verify = if self.gpg_verify {
            "true"
        } else {
            "false"
        };
        let mut out = String::from_str("[Flatpak Ref]\nVersion=1\nName=");
        out.append(self.name.as_str());
        out.append("\nBranch=");
        out.append(self.branch.as_str());
        out.append("\nTitle=");
        out.append(self.title.as_str());
        out.append("\nUrl=");
        out.append(self.url.as_str());
        out.append("\nRuntimeRepo=");
        out.append(self.runtime_repo.as_str());
        out.append("\ngpg-verify=");
        out.append(verify);
        out.append("\ngpg-verify-summary=");
        out.append(verify);
        out.append("\n");
        out
    }
}

/// The command that adds `repo` to a user's Flatpak remotes.
pub open spec fn remote_add_text(repo: FlatpakRepoView) -> Seq<char> {
    "flatpak --user remote-add"@ + (if repo.gpg_verify {
        ""@
    } else {
        " --no-gpg-verify"@
    }) + " "@ + repo.suggested_name + " "@ + repo.url
}

/// The command that adds `repo_info` to a user's Flatpak remotes.
pub fn flatpak_remote_add(repo_info: &FlatpakRepo) -> (r: String)
    ensures
        r@ == remote_add_text(repo_info@),
{
    let no_gpg_verify = if repo_info.gpg_verify {
        ""
    } else {
        " --no-gpg-verify"
    };
    let mut out = concat3("flatpak --user remote-add", no_gpg_verify, " ");
    out.append(repo_info.suggested_name.as_str());
    out.append(" ");
    out.append(repo_info.url.as_str());
    out
}

/// Shown with artifacts from a repository of the product's own.
pub open spec fn custom_setup_text(repo: FlatpakRepoView) -> Seq<char> {
    "You may need to set up our custom Flatpak repo first using\n\n```"@ + remote_add_text(repo)
        + "```"@
}

/// The link under which a version's `.flatpakref` file is served.
pub open spec fn flatpakref_link(artifact_key: Seq<char>, product_name: Seq<char>, version: Seq<char>) -> Seq<
    char,
> {
    "/"@ + artifact_key + "/"@ + product_name + "/"@ + version
}

/// What a setting says about a custom repository and the package in it.
pub open spec fn custom_infos(mapping: OrderedMap<SettingValue>) -> Result<
    (FlatpakRepoView, Seq<char>),
    ArtifactError,
> {
    if string_entry(mapping, "repo"@) is Some && string_entry(mapping, "repo_suggested_name"@) is Some
        && bool_entry(mapping, "repo_gpg_verify"@) is Some && string_entry(mapping, "repo_branch"@) is Some
        && string_entry(mapping, "package"@) is Some {
        Ok(
            (
                FlatpakRepoView {
                    url: string_entry(mapping, "repo"@)->0,
                    suggested_name: string_entry(mapping, "repo_suggested_name"@)->0,
                    gpg_verify: bool_entry(mapping, "repo_gpg_verify"@)->0,
                    branch: string_entry(mapping, "repo_branch"@)->0,
                },
                string_entry(mapping, "package"@)->0,
            ),
        )
    } else {
        Err(ArtifactError::MissingSetting)
    }
}

/// The repository and the package's id for a product's setting: with a
/// repository given, the setting is the package's id; without one, the setting
/// describes the repository too.
pub open spec fn infos_for(repo: Option<FlatpakRepoView>, setting: Option<&SettingValue>) -> Result<
    (FlatpakRepoView, Seq<char>),
    ArtifactError,
> {
    match repo {
        Some(repo) => match setting {
            Some(SettingValue::String(package_id)) => Ok((repo, package_id@)),
            _ => Err(ArtifactError::MissingSetting),
        },
        None => match setting {
            Some(SettingValue::Mapping(mapping)) => custom_infos(*mapping),
            _ => Err(ArtifactError::MissingSetting),
        },
    }
}

/// The `.flatpakref` file of `product` for the artifact type registered under
/// `key`: `NotFound` where the catalog has no such product or its setting does
/// not name a package.
pub open spec fn flatpakref_for(
    key: Seq<char>,
    repo: Option<FlatpakRepoView>,
    products: OrderedMap<Product>,
    product: Seq<char>,
) -> Result<FlatpakrefView, Status> {
    if products.has(product) {
        let product_data = products.value_of(product);
        let setting = if product_data.settings@.contains_key(key) {
            Some(&product_data.settings@[key])
        } else {
            None
        };
        match infos_for(repo, setting) {
            Ok((repo, package_id)) => Ok(FlatpakrefView::of(repo, package_id, product_data.name@)),
            Err(_) => Err(Status::NotFound),
        }
    } else {
        Err(Status::NotFound)
    }
}

/// The view of a request's outcome.
pub open spec fn flatpakref_result(r: Result<Flatpakref, Status>) -> Result<FlatpakrefView, Status> {
    match r {
        Ok(f) => Ok(f@),
        Err(e) => Err(e),
    }
}

/// Flatpak packages. With a repository given, the product's setting is the
/// package's id; without one, the setting is a mapping that describes the
/// repository and names the package.
pub struct FlatpakArtifactType {
    artifact_key: &'static str,
    repo: Option<FlatpakRepo>,
}

impl FlatpakArtifactType {
    /// The key under which the artifact type is registered.
    pub closed spec fn key(&self) -> Seq<char> {
        self.artifact_key@
    }

    /// The repository that the artifact type was made with.
    pub closed spec fn repo(&self) -> Option<FlatpakRepoView> {
        match self.repo {
            Some(repo) => Some(repo@),
            None => None,
        }
    }

    /// The repository and the package's id for a product's setting.
    pub open spec fn infos(&self, setting: Option<&SettingValue>) -> Result<
        (FlatpakRepoView, Seq<char>),
        ArtifactError,
    > {
        infos_for(self.repo(), setting)
    }

    /// The descriptor for a product's setting, with the link `url` if there is one.
    pub open spec fn info_for(&self, setting: Option<&SettingValue>, url: Option<Seq<char>>) -> Result<
        ArtifactInfoView,
        ArtifactError,
    > {
        match self.infos(setting) {
            Ok((repo, _)) => Ok(
                ArtifactInfoView {
                    display_name: ArtifactDisplayTitleView::Simple(FLATPAK_TITLE@),
                    extra_info_markdown: Some(
                        if self.key() == FLATPAK_CUSTOM_ARTIFACT_KEY@ {
                            custom_setup_text(repo)
                        } else {
                            FLATPAK_QUICK_SETUP@
                        },
                    ),
                    icon: Some(FLATPAK_ICON@),
                    path: match url {
                        Some(url) => ArtifactPathView::RemoteUrl(url),
                        None => ArtifactPathView::Empty,
                    },
                },
            ),
            Err(e) => Err(e),
        }
    }

    /// The `.flatpakref` file of `product` in the catalog.
    pub open spec fn flatpakref_of(&self, products: OrderedMap<Product>, product: Seq<char>) -> Result<
        FlatpakrefView,
        Status,
    > {
        flatpakref_for(self.key(), self.repo(), products, product)
    }

    /// An artifact type registered under `artifact_key`, for packages in `repo` or,
    /// without one, in the repository that each product's setting describes.
    pub fn new(artifact_key: &'static str, repo: Option<FlatpakRepo>) -> (r: Self)
        ensures
            r.key() == artifact_key@,
            r.repo() == match repo {
                Some(repo) => Some(repo@),
                None => None,
            },
    {
        Self { artifact_key, repo }
    }

    fn get_artifact_info(&self, setting: Option<&SettingValue>, url: Option<String>) -> (r: Result<
        ArtifactInfo,
        ArtifactError,
    >)
        ensures
            info_result(r) == self.info_for(
                setting,
                match url {
                    Some(url) => Some(url@),
                    None => None,
                },
            ),
    {
        let (repo_info, _package_id) = match self.get_infos(setting) {
            Ok(infos) => infos,
            Err(e) => {
                return Err(e);
            },
        };
        let mut info = match url {
            None => ArtifactInfo::new_empty(
                ArtifactDisplayTitle::simple(FLATPAK_TITLE),
                Some(String::from_str(FLATPAK_ICON)),
            ),
            Some(url) => ArtifactInfo::new_url(
                ArtifactDisplayTitle::simple(FLATPAK_TITLE),
                Some(String::from_str(FLATPAK_ICON)),
                url,
            ),
        };
        let setup_text = if self.artifact_key.eq(FLATPAK_CUSTOM_ARTIFACT_KEY) {
            let command = flatpak_remote_add(&repo_info);
            concat3(
                "You may need to set up our custom Flatpak repo first using\n\n```",
                command.as_str(),
                "```",
            )
        } else {
            String::from_str(FLATPAK_QUICK_SETUP)
        };
        info.set_extra_info_markdown(setup_text);
        Ok(info)
    }

    /// The `.flatpakref` file of `product` in the catalog.
    pub fn get_flatpakref_impl(&self, products: &OrderedMap<Product>, product: &str) -> (r: Result<
        Flatpakref,
        Status,
    >)
        ensures
            flatpakref_result(r) == self.flatpakref_of(*products, product@),
    {
        if let Some(product_data) = products.get(product) {
            let setting = product_data.settings.get(self.artifact_key);
            // A flatpakref cannot name a commit, so the latest build is served for every release.
            match self.get_infos(setting) {
                Ok((repo_info, package_id)) => Ok(
                    Flatpakref::new(&repo_info, package_id.as_str(), product_data.name.as_str()),
                ),
                Err(_) => Err(Status::NotFound),
            }
        } else {
            Err(Status::NotFound)
        }
    }

    fn get_infos(&self, setting: Option<&SettingValue>) -> (r: Result<
        (FlatpakRepo, String),
        ArtifactError,
    >)
        ensures
            match r {
                Ok((repo, package_id)) => self.infos(setting) == Ok::<
                    (FlatpakRepoView, Seq<char>),
                    ArtifactError,
                >((repo@, package_id@)),
                Err(e) => self.infos(setting) == Err::<(FlatpakRepoView, Seq<char>), ArtifactError>(e),
            },
    {
        // With a repository given, only the package's id comes from the settings.
        // Otherwise everything does.
        match &self.repo {
            Some(repo) => match setting {
                Some(SettingValue::String(package_id)) => Ok((repo.duplicate(), package_id.clone())),
                _ => Err(ArtifactError::MissingSetting),
            },
            None => match setting {
                Some(SettingValue::Mapping(mapping)) => {
                    let url = get_string(mapping, "repo")?;
                    let suggested_name = get_string(mapping, "repo_suggested_name")?;
                    let gpg_verify = get_bool(mapping, "repo_gpg_verify")?;
                    let branch = get_string(mapping, "repo_branch")?;
                    let package = get_string(mapping, "package")?;
                    Ok((FlatpakRepo { url, suggested_name, gpg_verify, branch }, package))
                },
                _ => Err(ArtifactError::MissingSetting),
            },
        }
    }
}

impl ArtifactType for FlatpakArtifactType {
    open spec fn release_wanted(
        &self,
        setting: Option<&SettingValue>,
        version_name: Seq<char>,
        version_info: VersionInfo,
    ) -> Option<
        ReleaseRequestView,
    > {
        None
    }

    open spec fn description(
        &self,
        setting: Option<&SettingValue>,
        version_name: Seq<char>,
        version_info: VersionInfo,
        release_notes: Option<Seq<char>>,
    ) -> TextEntries {
        Seq::empty()
    }

    open spec fn artifact(
        &self,
        product_name: Seq<char>,
        version: Seq<char>,
        download_spec: DownloadSpec,
        setting: Option<&SettingValue>,
    ) -> Result<ArtifactInfoView, ArtifactError> {
        self.info_for(setting, Some(flatpakref_link(self.key(), product_name, version)))
    }

    open spec fn nightly_artifact_info(
        &self,
        product_name: Seq<char>,
        download_spec: DownloadSpec,
        setting: Option<&SettingValue>,
    ) -> Result<ArtifactInfoView, ArtifactError> {
        self.info_for(setting, None)
    }

    open spec fn nightly_artifact_download(
        &self,
        product_name: Seq<char>,
        download_spec: DownloadSpec,
        setting: Option<&SettingValue>,
        nightly_config: NightlyConfig,
    ) -> Result<NightlyArtifactResponderView, ArtifactError> {
        match self.infos(setting) {
            Ok((repo, package_id)) => Ok(
                NightlyArtifactResponderView::Flatpakref(
                    FlatpakrefView::of(repo, package_id, product_name),
                ),
            ),
            Err(e) => Err(e),
        }
    }

    fn describe_request(&self, _setting: Option<&SettingValue>, _version: &NamedVersion) -> (r: Option<
        ReleaseRequest,
    >) {
        None
    }

    fn describe(
        &self,
        _description_map: &mut OrderedMap<String>,
        _setting: Option<&SettingValue>,
        _version: &NamedVersion,
        _release_notes: Option<&str>,
    ) {
    }

    fn get_artifact(
        &self,
        product_name: &str,
        version: &str,
        _download_spec: &DownloadSpec,
        setting: Option<&SettingValue>,
    ) -> (r: Result<ArtifactInfo, ArtifactError>) {
        let mut link = concat3("/", self.artifact_key, "/");
        link.append(product_name);
        link.append("/");
        link.append(version);
        self.get_artifact_info(setting, Some(link))
    }

    fn get_nightly_artifact_info(
        &self,
        _product_name: &str,
        _download_spec: &DownloadSpec,
        setting: Option<&SettingValue>,
    ) -> (r: Result<ArtifactInfo, ArtifactError>) {
        self.get_artifact_info(setting, None)
    }

    fn get_nightly_artifact_download(
        &self,
        product_name: &str,
        _download_spec: &DownloadSpec,
        setting: Option<&SettingValue>,
        _nightly_config: &NightlyConfig,
    ) -> (r: Result<NightlyArtifactResponder, ArtifactError>) {
        match self.get_infos(setting) {
            Ok((repo_info, package_id)) => Ok(
                NightlyArtifactResponder::Flatpakref(
                    Flatpakref::new(&repo_info, package_id.as_str(), product_name),
                ),
            ),
            Err(e) => Err(e),
        }
    }
}

/// The string under `key`, or `MissingSetting`.
fn get_string(mapping: &OrderedMap<SettingValue>, key: &'static str) -> (r: Result<
    String,
    ArtifactError,
>)
    ensures
        match r {
            Ok(v) => string_entry(*mapping, key@) == Some(v@),
            Err(e) => e == ArtifactError::MissingSetting && string_entry(*mapping, key@) is None,
        },
{
    match SettingValue::get_string(mapping, key) {
        Some(v) => Ok(String::from_str(v)),
        None => Err(ArtifactError::MissingSetting),
    }
}

/// The boolean under `key`, or `MissingSetting`.
fn get_bool(mapping: &OrderedMap<SettingValue>, key: &'static str) -> (r: Result<bool, ArtifactError>)
    ensures
        match r {
            Ok(v) => bool_entry(*mapping, key@) == Some(v),
            Err(e) => e == ArtifactError::MissingSetting && bool_entry(*mapping, key@) is None,
        },
{
    match SettingValue::get_bool(mapping, key) {
        Some(v) => Ok(v),
        None => Err(ArtifactError::MissingSetting),
    }
}

/// The `.flatpakref` file of a product on Flathub's stable branch. The host that
/// only serves release information has none.
pub fn get_flatpakref(is_release_info: bool, products: &OrderedMap<Product>, product: &str) -> (r:
    Result<Flatpakref, Status>)
    ensures
        flatpakref_result(r) == if is_release_info {
            Err(Status::NotFound)
        } else {
            flatpakref_for(
                FLATHUB_STABLE_ARTIFACT_KEY@,
                Some(
                    FlatpakRepoView {
                        url: FLATHUB_URL@,
                        suggested_name: "Flathub"@,
                        gpg_verify: true,
                        branch: "stable"@,
                    },
                ),
                *products,
                product@,
            )
        },
{
    if is_release_info {
        Err(Status::NotFound)
    } else {
        FlatpakArtifactType::new(
            FLATHUB_STABLE_ARTIFACT_KEY,
            Some(FlatpakRepo::flathub_stable()),
        ).get_flatpakref_impl(products, product)
    }
}

/// The `.flatpakref` file of a product on Flathub's beta branch.
pub fn get_flatpakref_beta(is_release_info: bool, products: &OrderedMap<Product>, product: &str) -> (r:
    Result<Flatpakref, Status>)
    ensures
        flatpakref_result(r) == if is_release_info {
            Err(Status::NotFound)
        } else {
            flatpakref_for(
                FLATHUB_BETA_ARTIFACT_KEY@,
                Some(
                    FlatpakRepoView {
                        url: FLATHUB_URL@,
                        suggested_name: "Flathub Beta"@,
                        gpg_verify: true,
                        branch: "beta"@,
                    },
                ),
                *products,
                product@,
            )
        },
{
    if is_release_info {
        Err(Status::NotFound)
    } else {
        FlatpakArtifactType::new(
            FLATHUB_BETA_ARTIFACT_KEY,
            Some(FlatpakRepo::flathub_beta()),
        ).get_flatpakref_impl(products, product)
    }
}

/// The `.flatpakref` file of a product in the repository that its setting
/// describes.
pub fn get_flatpakref_custom(is_release_info: bool, products: &OrderedMap<Product>, product: &str) -> (r:
    Result<Flatpakref, Status>)
    ensures
        flatpakref_result(r) == if is_release_info {
            Err(Status::NotFound)
        } else {
            flatpakref_for(FLATPAK_CUSTOM_ARTIFACT_KEY@, None, *products, product@)
        },
{
    if is_release_info {
        Err(Status::NotFound)
    } else {
        FlatpakArtifactType::new(FLATPAK_CUSTOM_ARTIFACT_KEY, None).get_flatpakref_impl(
            products,
            product,
        )
    }
}

} // verus!

//! The artifact types of the library as one type, and the registry that holds
//! them under their usual keys.
use crate::artifacttype::fallback::FallbackArtifactType;
use crate::artifacttype::types::flatpak::{
    FlatpakArtifactType, FlatpakRepo, FlatpakRepoView, FLATHUB_STABLE_ARTIFACT_KEY, FLATHUB_URL,
};
use crate::artifacttype::types::github::GithubArtifactType;
use crate::artifacttype::types::mac64::Mac64ArtifactType;
use crate::artifacttype::types::mac_arm64::MacArm64ArtifactType;
use crate::artifacttype::types::pypi::PypiArtifactType;
use crate::artifacttype::types::win32::Win32ArtifactType;
use crate::artifacttype::{
    ArtifactError, ArtifactInfo, ArtifactInfoView, ArtifactType, ArtifactTypes,
    NightlyArtifactResponder, NightlyArtifactResponderView, ReleaseRequest, ReleaseRequestView,
    FALLBACK_KEY,
};
use crate::ordered_map::{OrderedMap, TextEntries};
use crate::release_map::NamedVersion;
use crate::nightly::NightlyConfig;
use crate::settings::SettingValue;
use crate::storage::{DownloadSpec, VersionInfo};
use vstd::prelude::*;

verus! {

/// One of the artifact types that come with the library.
pub enum BuiltinArtifactType {
    Fallback(FallbackArtifactType),
    Flatpak(FlatpakArtifactType),
    Github(GithubArtifactType),
    Mac64(Mac64ArtifactType),
    MacArm64(MacArm64ArtifactType),
    Pypi(PypiArtifactType),
    Win32(Win32ArtifactType),
}

impl ArtifactType for BuiltinArtifactType {
    open spec fn release_wanted(
        &self,
        setting: Option<&SettingValue>,
        version_name: Seq<char>,
        version_info: VersionInfo,
    ) -> Option<
        ReleaseRequestView,
    > {
        match self {
            BuiltinArtifactType::Fallback(t) => t.release_wanted(setting, version_name, version_info),
            BuiltinArtifactType::Flatpak(t) => t.release_wanted(setting, version_name, version_info),
            BuiltinArtifactType::Github(t) => t.release_wanted(setting, version_name, version_info),
            BuiltinArtifactType::Mac64(t) => t.release_wanted(setting, version_name, version_info),
            BuiltinArtifactType::MacArm64(t) => t.release_wanted(setting, version_name, version_info),
            BuiltinArtifactType::Pypi(t) => t.release_wanted(setting, version_name, version_info),
            BuiltinArtifactType::Win32(t) => t.release_wanted(setting, version_name, version_info),
        }
    }

    open spec fn description(
        &self,
        setting: Option<&SettingValue>,
        version_name: Seq<char>,
        version_info: VersionInfo,
        release_notes: Option<Seq<char>>,
    ) -> TextEntries {
        match self {
            BuiltinArtifactType::Fallback(t) => t.description(setting, version_name, version_info, release_notes),
            BuiltinArtifactType::Flatpak(t) => t.description(setting, version_name, version_info, release_notes),
            BuiltinArtifactType::Github(t) => t.description(setting, version_name, version_info, release_notes),
            BuiltinArtifactType::Mac64(t) => t.description(setting, version_name, version_info, release_notes),
            BuiltinArtifactType::MacArm64(t) => t.description(setting, version_name, version_info, release_notes),
            BuiltinArtifactType::Pypi(t) => t.description(setting, version_name, version_info, release_notes),
            BuiltinArtifactType::Win32(t) => t.description(setting, version_name, version_info, release_notes),
        }
    }

    fn describe_request(&self, setting: Option<&SettingValue>, version: &NamedVersion) -> (r: Option<
        ReleaseRequest,
    >) {
        match self {
            BuiltinArtifactType::Fallback(t) => t.describe_request(setting, version),
            BuiltinArtifactType::Flatpak(t) => t.describe_request(setting, version),
            BuiltinArtifactType::Github(t) => t.describe_request(setting, version),
            BuiltinArtifactType::Mac64(t) => t.describe_request(setting, version),
            BuiltinArtifactType::MacArm64(t) => t.describe_request(setting, version),
            BuiltinArtifactType::Pypi(t) => t.describe_request(setting, version),
            BuiltinArtifactType::Win32(t) => t.describe_request(setting, version),
        }
    }

    fn describe(
        &self,
        description_map: &mut OrderedMap<String>,
        setting: Option<&SettingValue>,
        version: &NamedVersion,
        release_notes: Option<&str>,
    ) {
        match self {
            BuiltinArtifactType::Fallback(t) => t.describe(description_map, setting, version, release_notes),
            BuiltinArtifactType::Flatpak(t) => t.describe(description_map, setting, version, release_notes),
            BuiltinArtifactType::Github(t) => t.describe(description_map, setting, version, release_notes),
            BuiltinArtifactType::Mac64(t) => t.describe(description_map, setting, version, release_notes),
            BuiltinArtifactType::MacArm64(t) => t.describe(description_map, setting, version, release_notes),
            BuiltinArtifactType::Pypi(t) => t.describe(description_map, setting, version, release_notes),
            BuiltinArtifactType::Win32(t) => t.describe(description_map, setting, version, release_notes),
        }
    }

    open spec fn artifact(
        &self,
        product_name: Seq<char>,
        version: Seq<char>,
        download_spec: DownloadSpec,
        setting: Option<&SettingValue>,
    ) -> Result<ArtifactInfoView, ArtifactError> {
        match self {
            BuiltinArtifactType::Fallback(t) => t.artifact(product_name, version, download_spec, setting),
            BuiltinArtifactType::Flatpak(t) => t.artifact(product_name, version, download_spec, setting),
            BuiltinArtifactType::Github(t) => t.artifact(product_name, version, download_spec, setting),
            BuiltinArtifactType::Mac64(t) => t.artifact(product_name, version, download_spec, setting),
            BuiltinArtifactType::MacArm64(t) => t.artifact(product_name, version, download_spec, setting),
            BuiltinArtifactType::Pypi(t) => t.artifact(product_name, version, download_spec, setting),
            BuiltinArtifactType::Win32(t) => t.artifact(product_name, version, download_spec, setting),
        }
    }

    open spec fn nightly_artifact_info(
        &self,
        product_name: Seq<char>,
        download_spec: DownloadSpec,
        setting: Option<&SettingValue>,
    ) -> Result<ArtifactInfoView, ArtifactError> {
        match self {
            BuiltinArtifactType::Fallback(t) => t.nightly_artifact_info(product_name, download_spec, setting),
            BuiltinArtifactType::Flatpak(t) => t.nightly_artifact_info(product_name, download_spec, setting),
            BuiltinArtifactType::Github(t) => t.nightly_artifact_info(product_name, download_spec, setting),
            BuiltinArtifactType::Mac64(t) => t.nightly_artifact_info(product_name, download_spec, setting),
            BuiltinArtifactType::MacArm64(t) => t.nightly_artifact_info(product_name, download_spec, setting),
            BuiltinArtifactType::Pypi(t) => t.nightly_artifact_info(product_name, download_spec, setting),
            BuiltinArtifactType::Win32(t) => t.nightly_artifact_info(product_name, download_spec, setting),
        }
    }

    open spec fn nightly_artifact_download(
        &self,
        product_name: Seq<char>,
        download_spec: DownloadSpec,
        setting: Option<&SettingValue>,
        nightly_config: NightlyConfig,
    ) -> Result<NightlyArtifactResponderView, ArtifactError> {
        match self {
            BuiltinArtifactType::Fallback(t) => t.nightly_artifact_download(
                product_name,
                download_spec,
                setting,
                nightly_config,
            ),
            BuiltinArtifactType::Flatpak(t) => t.nightly_artifact_download(
                product_name,
                download_spec,
                setting,
                nightly_config,
            ),
            BuiltinArtifactType::Github(t) => t.nightly_artifact_download(
                product_name,
                download_spec,
                setting,
                nightly_config,
            ),
            BuiltinArtifactType::Mac64(t) => t.nightly_artifact_download(
                product_name,
                download_spec,
                setting,
                nightly_config,
            ),
            BuiltinArtifactType::MacArm64(t) => t.nightly_artifact_download(
                product_name,
                download_spec,
                setting,
                nightly_config,
            ),
            BuiltinArtifactType::Pypi(t) => t.nightly_artifact_download(
                product_name,
                download_spec,
                setting,
                nightly_config,
            ),
            BuiltinArtifactType::Win32(t) => t.nightly_artifact_download(
                product_name,
                download_spec,
                setting,
                nightly_config,
            ),
        }
    }

    fn get_artifact(
        &self,
        product_name: &str,
        version: &str,
        download_spec: &DownloadSpec,
        setting: Option<&SettingValue>,
    ) -> (r: Result<ArtifactInfo, ArtifactError>) {
        match self {
            BuiltinArtifactType::Fallback(t) => t.get_artifact(product_name, version, download_spec, setting),
            BuiltinArtifactType::Flatpak(t) => t.get_artifact(product_name, version, download_spec, setting),
            BuiltinArtifactType::Github(t) => t.get_artifact(product_name, version, download_spec, setting),
            BuiltinArtifactType::Mac64(t) => t.get_artifact(product_name, version, download_spec, setting),
            BuiltinArtifactType::MacArm64(t) => t.get_artifact(product_name, version, download_spec, setting),
            BuiltinArtifactType::Pypi(t) => t.get_artifact(product_name, version, download_spec, setting),
            BuiltinArtifactType::Win32(t) => t.get_artifact(product_name, version, download_spec, setting),
        }
    }

    fn get_nightly_artifact_info(
        &self,
        product_name: &str,
        download_spec: &DownloadSpec,
        setting: Option<&SettingValue>,
    ) -> (r: Result<ArtifactInfo, ArtifactError>) {
        match self {
            BuiltinArtifactType::Fallback(t) => t.get_nightly_artifact_info(product_name, download_spec, setting),
            BuiltinArtifactType::Flatpak(t) => t.get_nightly_artifact_info(product_name, download_spec, setting),
            BuiltinArtifactType::Github(t) => t.get_nightly_artifact_info(product_name, download_spec, setting),
            BuiltinArtifactType::Mac64(t) => t.get_nightly_artifact_info(product_name, download_spec, setting),
            BuiltinArtifactType::MacArm64(t) => t.get_nightly_artifact_info(product_name, download_spec, setting),
            BuiltinArtifactType::Pypi(t) => t.get_nightly_artifact_info(product_name, download_spec, setting),
            BuiltinArtifactType::Win32(t) => t.get_nightly_artifact_info(product_name, download_spec, setting),
        }
    }

    fn get_nightly_artifact_download(
        &self,
        product_name: &str,
        download_spec: &DownloadSpec,
        setting: Option<&SettingValue>,
        nightly_config: &NightlyConfig,
    ) -> (r: Result<NightlyArtifactResponder, ArtifactError>) {
        match self {
            BuiltinArtifactType::Fallback(t) => t.get_nightly_artifact_download(
                product_name,
                download_spec,
                setting,
                nightly_config,
            ),
            BuiltinArtifactType::Flatpak(t) => t.get_nightly_artifact_download(
                product_name,
                download_spec,
                setting,
                nightly_config,
            ),
            BuiltinArtifactType::Github(t) => t.get_nightly_artifact_download(
                product_name,
                download_spec,
                setting,
                nightly_config,
            ),
            BuiltinArtifactType::Mac64(t) => t.get_nightly_artifact_download(
                product_name,
                download_spec,
                setting,
                nightly_config,
            ),
            BuiltinArtifactType::MacArm64(t) => t.get_nightly_artifact_download(
                product_name,
                download_spec,
                setting,
                nightly_config,
            ),
            BuiltinArtifactType::Pypi(t) => t.get_nightly_artifact_download(
                product_name,
                download_spec,
                setting,
                nightly_config,
            ),
            BuiltinArtifactType::Win32(t) => t.get_nightly_artifact_download(
                product_name,
                download_spec,
                setting,
                nightly_config,
            ),
        }
    }
}

/// The keys of the default registry, in the order of registration.
pub open spec fn default_keys() -> Seq<Seq<char>> {
    seq![FALLBACK_KEY@, FLATHUB_STABLE_ARTIFACT_KEY@, "github"@, "mac64"@, "pypi"@, "win32"@]
}

impl Default for ArtifactTypes<BuiltinArtifactType> {
    /// The registry with the fallback, Flathub's stable branch, GitHub, 64-bit
    /// Macs, PyPI and 32-bit Windows.
    fn default() -> (r: Self)
        ensures
            r.0.wf(),
            r.0.keys() == default_keys(),
            r.0.values()[0] is Fallback,
            r.0.values()[1] matches BuiltinArtifactType::Flatpak(f) && f.key()
                == FLATHUB_STABLE_ARTIFACT_KEY@ && f.repo() == Some(
                FlatpakRepoView {
                    url: FLATHUB_URL@,
                    suggested_name: "Flathub"@,
                    gpg_verify: true,
                    branch: "stable"@,
                },
            ),
            r.0.values()[2] is Github,
            r.0.values()[3] is Mac64,
            r.0.values()[4] is Pypi,
            r.0.values()[5] is Win32,
    {
        proof {
            reveal_strlit("__fallback");
            reveal_strlit("flathub");
            reveal_strlit("github");
            reveal_strlit("mac64");
            reveal_strlit("pypi");
            reveal_strlit("win32");
        }
        let mut m = ArtifactTypes::new();
        m.register(
            String::from_str(FALLBACK_KEY),
            BuiltinArtifactType::Fallback(FallbackArtifactType),
        );
        assert(m.0.keys() =~= seq![FALLBACK_KEY@]);
        assert(!m.0.has(FLATHUB_STABLE_ARTIFACT_KEY@)) by {
            assert(FLATHUB_STABLE_ARTIFACT_KEY@.len() != FALLBACK_KEY@.len());
        }
        m.register(
            String::from_str(FLATHUB_STABLE_ARTIFACT_KEY),
            BuiltinArtifactType::Flatpak(
                FlatpakArtifactType::new(
                    FLATHUB_STABLE_ARTIFACT_KEY,
                    Some(FlatpakRepo::flathub_stable()),
                ),
            ),
        );
        assert(m.0.keys() =~= seq![FALLBACK_KEY@, FLATHUB_STABLE_ARTIFACT_KEY@]);
        assert(!m.0.has("github"@)) by {
            assert("github"@[0] != FALLBACK_KEY@[0]);
            assert("github"@[0] != FLATHUB_STABLE_ARTIFACT_KEY@[0]);
        }
        m.register(String::from_str("github"), BuiltinArtifactType::Github(GithubArtifactType));
        assert(m.0.keys() =~= seq![FALLBACK_KEY@, FLATHUB_STABLE_ARTIFACT_KEY@, "github"@]);
        assert(!m.0.has("mac64"@)) by {
            assert("mac64"@[0] != FALLBACK_KEY@[0]);
            assert("mac64"@[0] != FLATHUB_STABLE_ARTIFACT_KEY@[0]);
            assert("mac64"@[0] != "github"@[0]);
        }
        m.register(String::from_str("mac64"), BuiltinArtifactType::Mac64(Mac64ArtifactType));
        assert(m.0.keys() =~= seq![FALLBACK_KEY@, FLATHUB_STABLE_ARTIFACT_KEY@, "github"@, "mac64"@]);
        assert(!m.0.has("pypi"@)) by {
            assert("pypi"@[0] != FALLBACK_KEY@[0]);
            assert("pypi"@[0] != FLATHUB_STABLE_ARTIFACT_KEY@[0]);
            assert("pypi"@[0] != "github"@[0]);
            assert("pypi"@[0] != "mac64"@[0]);
        }
        m.register(String::from_str("pypi"), BuiltinArtifactType::Pypi(PypiArtifactType));
        assert(m.0.keys() =~= seq![
            FALLBACK_KEY@,
            FLATHUB_STABLE_ARTIFACT_KEY@,
            "github"@,
            "mac64"@,
            "pypi"@,
        ]);
        assert(!m.0.has("win32"@)) by {
            assert("win32"@[0] != FALLBACK_KEY@[0]);
            assert("win32"@[0] != FLATHUB_STABLE_ARTIFACT_KEY@[0]);
            assert("win32"@[0] != "github"@[0]);
            assert("win32"@[0] != "mac64"@[0]);
            assert("win32"@[0] != "pypi"@[0]);
        }
        m.register(String::from_str("win32"), BuiltinArtifactType::Win32(Win32ArtifactType));
        assert(m.0.keys() =~= default_keys());
        proof {
            let keys = default_keys();
            assert(keys[0] == FALLBACK_KEY@);
            assert(keys[1] == FLATHUB_STABLE_ARTIFACT_KEY@);
            assert(keys[2] == "github"@);
            assert(keys[3] == "mac64"@);
            assert(keys[4] == "pypi"@);
            assert(keys[5] == "win32"@);
            m.0.lemma_position(FALLBACK_KEY@, 0);
            m.0.lemma_position(FLATHUB_STABLE_ARTIFACT_KEY@, 1);
            m.0.lemma_position("github"@, 2);
            m.0.lemma_position("mac64"@, 3);
            m.0.lemma_position("pypi"@, 4);
            m.0.lemma_position("win32"@, 5);
        }
        m
    }
}

} // verus!

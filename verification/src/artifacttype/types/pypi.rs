//! Packages on the Python Package Index.
use crate::artifacttype::{
    ArtifactDisplayTitle, ArtifactDisplayTitleView, ArtifactError, ArtifactInfo, ArtifactInfoView,
    ArtifactPathView, ArtifactType, NightlyArtifactResponder, NightlyArtifactResponderView,
};
use crate::nightly::NightlyConfig;
use crate::artifacttype::{ReleaseRequest, ReleaseRequestView};
use crate::ordered_map::{OrderedMap, TextEntries};
use crate::release_map::NamedVersion;
use crate::settings::{setting_string, SettingValue};
use crate::storage::{DownloadSpec, VersionInfo};
use crate::text::concat3;
use vstd::prelude::*;

verus! {

/// A link to the version's page on PyPI. The product's setting names the
/// project there.
pub struct PypiArtifactType;

/// The page of `version` of `project_name` on PyPI.
pub open spec fn pypi_url(project_name: Seq<char>, version: Seq<char>) -> Seq<char> {
    "https://pypi.org/project/"@ + project_name + "/"@ + version + "/"@
}

impl ArtifactType for PypiArtifactType {
    open spec fn release_wanted(
        &self,
        setting: Option<&SettingValue>,
        version_name: Seq<char>,
        version_info: VersionInfo,
    ) -> Option<
        ReleaseRequestView,
    > {
        None
    }

    open spec fn description(
        &self,
        setting: Option<&SettingValue>,
        version_name: Seq<char>,
        version_info: VersionInfo,
        release_notes: Option<Seq<char>>,
    ) -> TextEntries {
        Seq::empty()
    }

    open spec fn artifact(
        &self,
        product_name: Seq<char>,
        version: Seq<char>,
        download_spec: DownloadSpec,
        setting: Option<&SettingValue>,
    ) -> Result<ArtifactInfoView, ArtifactError> {
        match setting_string(setting) {
            Some(project_name) => Ok(
                ArtifactInfoView {
                    display_name: ArtifactDisplayTitleView::Simple("Package on PyPi"@),
                    extra_info_markdown: None,
                    icon: Some("pypi.png"@),
                    path: ArtifactPathView::RemoteUrl(pypi_url(project_name, version)),
                },
            ),
            None => Err(ArtifactError::MissingSetting),
        }
    }

    open spec fn nightly_artifact_info(
        &self,
        product_name: Seq<char>,
        download_spec: DownloadSpec,
        setting: Option<&SettingValue>,
    ) -> Result<ArtifactInfoView, ArtifactError> {
        Err(ArtifactError::NotSupported)
    }

    open spec fn nightly_artifact_download(
        &self,
        product_name: Seq<char>,
        download_spec: DownloadSpec,
        setting: Option<&SettingValue>,
        nightly_config: NightlyConfig,
    ) -> Result<NightlyArtifactResponderView, ArtifactError> {
        Err(ArtifactError::NotSupported)
    }

    fn describe_request(&self, _setting: Option<&SettingValue>, _version: &NamedVersion) -> (r: Option<
        ReleaseRequest,
    >) {
        None
    }

    fn describe(
        &self,
        _description_map: &mut OrderedMap<String>,
        _setting: Option<&SettingValue>,
        _version: &NamedVersion,
        _release_notes: Option<&str>,
    ) {
    }

    fn get_artifact(
        &self,
        _product_name: &str,
        version: &str,
        _download_spec: &DownloadSpec,
        setting: Option<&SettingValue>,
    ) -> (r: Result<ArtifactInfo, ArtifactError>) {
        match setting {
            Some(SettingValue::String(project_name)) => {
                let mut url = concat3("https://pypi.org/project/", project_name.as_str(), "/");
                url.append(version);
                url.append("/");
                Ok(
                    ArtifactInfo::new_url(
                        ArtifactDisplayTitle::simple("Package on PyPi"),
                        Some(String::from_str("pypi.png")),
                        url,
                    ),
                )
            },
            _ => Err(ArtifactError::MissingSetting),
        }
    }

    fn get_nightly_artifact_info(
        &self,
        _product_name: &str,
        _download_spec: &DownloadSpec,
        _setting: Option<&SettingValue>,
    ) -> (r: Result<ArtifactInfo, ArtifactError>) {
        Err(ArtifactError::NotSupported)
    }

    fn get_nightly_artifact_download(
        &self,
        _product_name: &str,
        _download_spec: &DownloadSpec,
        _setting: Option<&SettingValue>,
        _nightly_config: &NightlyConfig,
    ) -> (r: Result<NightlyArtifactResponder, ArtifactError>) {
        Err(ArtifactError::NotSupported)
    }
}

} // verus!

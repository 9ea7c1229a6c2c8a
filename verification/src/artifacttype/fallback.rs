//! The artifact type for keys that have none of their own.
use crate::artifacttype::{
    ArtifactDisplayTitle, ArtifactDisplayTitleView, ArtifactError, ArtifactInfo, ArtifactInfoView,
    ArtifactPathView, ArtifactType, NightlyArtifactResponder, NightlyArtifactResponderView,
};
use crate::nightly::NightlyConfig;
use crate::artifacttype::{ReleaseRequest, ReleaseRequestView};
use crate::ordered_map::{OrderedMap, TextEntries};
use crate::release_map::NamedVersion;
use crate::settings::SettingValue;
use crate::storage::{DownloadSpec, VersionInfo};
use vstd::prelude::*;

verus! {

/// Shows the download's raw value as title and as file. It has no nightly
/// builds.
pub struct FallbackArtifactType;

impl ArtifactType for FallbackArtifactType {
    open spec fn release_wanted(
        &self,
        setting: Option<&SettingValue>,
        version_name: Seq<char>,
        version_info: VersionInfo,
    ) -> Option<
        ReleaseRequestView,
    > {
        None
    }

    open spec fn description(
        &self,
        setting: Option<&SettingValue>,
        version_name: Seq<char>,
        version_info: VersionInfo,
        release_notes: Option<Seq<char>>,
    ) -> TextEntries {
        Seq::empty()
    }

    open spec fn artifact(
        &self,
        product_name: Seq<char>,
        version: Seq<char>,
        download_spec: DownloadSpec,
        setting: Option<&SettingValue>,
    ) -> Result<ArtifactInfoView, ArtifactError> {
        Ok(
            ArtifactInfoView {
                display_name: ArtifactDisplayTitleView::Simple(download_spec.url_view()),
                extra_info_markdown: None,
                icon: None,
                path: ArtifactPathView::File(download_spec.url_view()),
            },
        )
    }

    open spec fn nightly_artifact_info(
        &self,
        product_name: Seq<char>,
        download_spec: DownloadSpec,
        setting: Option<&SettingValue>,
    ) -> Result<ArtifactInfoView, ArtifactError> {
        Err(ArtifactError::NotSupported)
    }

    open spec fn nightly_artifact_download(
        &self,
        product_name: Seq<char>,
        download_spec: DownloadSpec,
        setting: Option<&SettingValue>,
        nightly_config: NightlyConfig,
    ) -> Result<NightlyArtifactResponderView, ArtifactError> {
        Err(ArtifactError::NotSupported)
    }

    fn describe_request(&self, _setting: Option<&SettingValue>, _version: &NamedVersion) -> (r: Option<
        ReleaseRequest,
    >) {
        None
    }

    fn describe(
        &self,
        _description_map: &mut OrderedMap<String>,
        _setting: Option<&SettingValue>,
        _version: &NamedVersion,
        _release_notes: Option<&str>,
    ) {
    }

    fn get_artifact(
        &self,
        _product_name: &str,
        _version: &str,
        download_spec: &DownloadSpec,
        _setting: Option<&SettingValue>,
    ) -> (r: Result<ArtifactInfo, ArtifactError>) {
        Ok(
            ArtifactInfo::new_file(
                ArtifactDisplayTitle::simple(download_spec.url()),
                None,
                String::from_str(download_spec.url()),
            ),
        )
    }

    fn get_nightly_artifact_info(
        &self,
        _product_name: &str,
        _download_spec: &DownloadSpec,
        _setting: Option<&SettingValue>,
    ) -> (r: Result<ArtifactInfo, ArtifactError>) {
        Err(ArtifactError::NotSupported)
    }

    fn get_nightly_artifact_download(
        &self,
        _product_name: &str,
        _download_spec: &DownloadSpec,
        _setting: Option<&SettingValue>,
        _nightly_config: &NightlyConfig,
    ) -> (r: Result<NightlyArtifactResponder, ArtifactError>) {
        Err(ArtifactError::NotSupported)
    }
}

} // verus!

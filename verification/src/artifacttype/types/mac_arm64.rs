//! Installers for Macs with Apple processors.
use crate::artifacttype::{
    ArtifactDisplayTitle, ArtifactDisplayTitleView, ArtifactError, ArtifactInfo, ArtifactInfoView,
    ArtifactPathView, ArtifactType, NightlyArtifactResponder, NightlyArtifactResponderView,
};
use crate::nightly::NightlyConfig;
use crate::artifacttype::{ReleaseRequest, ReleaseRequestView};
use crate::ordered_map::{OrderedMap, TextEntries};
use crate::release_map::NamedVersion;
use crate::settings::SettingValue;
use crate::storage::{DownloadSpec, VersionInfo};
use vstd::prelude::*;

verus! {

/// A file for MacOS on arm64. Its nightly build is the CI artifact that the download names.
pub struct MacArm64ArtifactType;

impl ArtifactType for MacArm64ArtifactType {
    open spec fn release_wanted(
        &self,
        setting: Option<&SettingValue>,
        version_name: Seq<char>,
        version_info: VersionInfo,
    ) -> Option<
        ReleaseRequestView,
    > {
        None
    }

    open spec fn description(
        &self,
        setting: Option<&SettingValue>,
        version_name: Seq<char>,
        version_info: VersionInfo,
        release_notes: Option<Seq<char>>,
    ) -> TextEntries {
        Seq::empty()
    }

    open spec fn artifact(
        &self,
        product_name: Seq<char>,
        version: Seq<char>,
        download_spec: DownloadSpec,
        setting: Option<&SettingValue>,
    ) -> Result<ArtifactInfoView, ArtifactError> {
        Ok(
            ArtifactInfoView {
                display_name: ArtifactDisplayTitleView::Descriptive {
                    file_name: download_spec.url_view(),
                    descriptive_title: "MacOS arm64"@,
                },
                extra_info_markdown: None,
                icon: Some("mac64.png"@),
                path: ArtifactPathView::File(download_spec.url_view()),
            },
        )
    }

    open spec fn nightly_artifact_info(
        &self,
        product_name: Seq<char>,
        download_spec: DownloadSpec,
        setting: Option<&SettingValue>,
    ) -> Result<ArtifactInfoView, ArtifactError> {
        Ok(
            ArtifactInfoView {
                display_name: ArtifactDisplayTitleView::Descriptive {
                    file_name: download_spec.url_view(),
                    descriptive_title: "MacOS arm64"@,
                },
                extra_info_markdown: None,
                icon: Some("mac64.png"@),
                path: ArtifactPathView::Empty,
            },
        )
    }

    open spec fn nightly_artifact_download(
        &self,
        product_name: Seq<char>,
        download_spec: DownloadSpec,
        setting: Option<&SettingValue>,
        nightly_config: NightlyConfig,
    ) -> Result<NightlyArtifactResponderView, ArtifactError> {
        Ok(NightlyArtifactResponderView::File(download_spec.url_view()))
    }

    fn describe_request(&self, _setting: Option<&SettingValue>, _version: &NamedVersion) -> (r: Option<
        ReleaseRequest,
    >) {
        None
    }

    fn describe(
        &self,
        _description_map: &mut OrderedMap<String>,
        _setting: Option<&SettingValue>,
        _version: &NamedVersion,
        _release_notes: Option<&str>,
    ) {
    }

    fn get_artifact(
        &self,
        _product_name: &str,
        _version: &str,
        download_spec: &DownloadSpec,
        _setting: Option<&SettingValue>,
    ) -> (r: Result<ArtifactInfo, ArtifactError>) {
        Ok(
            ArtifactInfo::new_file(
                ArtifactDisplayTitle::descriptive(download_spec.url(), "MacOS arm64"),
                Some(String::from_str("mac64.png")),
                String::from_str(download_spec.url()),
            ),
        )
    }

    fn get_nightly_artifact_info(
        &self,
        _product_name: &str,
        download_spec: &DownloadSpec,
        _setting: Option<&SettingValue>,
    ) -> (r: Result<ArtifactInfo, ArtifactError>) {
        Ok(
            ArtifactInfo::new_empty(
                ArtifactDisplayTitle::descriptive(download_spec.url(), "MacOS arm64"),
                Some(String::from_str("mac64.png")),
            ),
        )
    }

    fn get_nightly_artifact_download(
        &self,
        _product_name: &str,
        download_spec: &DownloadSpec,
        _setting: Option<&SettingValue>,
        _nightly_config: &NightlyConfig,
    ) -> (r: Result<NightlyArtifactResponder, ArtifactError>) {
        Ok(NightlyArtifactResponder::File(String::from_str(download_spec.url())))
    }
}

} // verus!

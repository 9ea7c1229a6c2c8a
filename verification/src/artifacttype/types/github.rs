//! Sources and release notes on GitHub.
use crate::artifacttype::{
    ArtifactDisplayTitle, ArtifactDisplayTitleView, ArtifactError, ArtifactInfo, ArtifactInfoView,
    ArtifactPathView, ArtifactType, NightlyArtifactResponder, NightlyArtifactResponderView,
};
use crate::artifacttype::{ReleaseRequest, ReleaseRequestView};
use crate::nightly::NightlyConfig;
use crate::ordered_map::{insert_text, text_entries, text_insert, text_insert_all, OrderedMap, TextEntries};
use crate::release_map::NamedVersion;
use crate::settings::{setting_string, SettingValue};
use crate::storage::{DownloadSpec, VersionInfo};
use crate::text::{concat3, first_at, first_index, lemma_first_index, piece, split_nth, split_once};
use vstd::prelude::*;

verus! {

/// A link to the sources of a version on GitHub. The product's setting names
/// the project as `org/repo`.
pub struct GithubArtifactType;

/// The tree of `reference` in `project_name` on GitHub.
pub open spec fn github_tree_url(project_name: Seq<char>, reference: Seq<char>) -> Seq<char> {
    "https://github.com/"@ + project_name + "/tree/"@ + reference
}

/// Builds the URL of a tree on GitHub.
fn tree_url(project_name: &str, reference: &str) -> (r: String)
    ensures
        r@ == github_tree_url(project_name@, reference@),
{
    let mut url = concat3("https://github.com/", project_name, "/tree/");
    url.append(reference);
    url
}

/// The label of the release notes.
pub const CHANGELOG_LABEL: &'static str = "Changelog";

/// What separates the sections of release notes.
pub const CHANGELOG_SEPARATOR: &'static str = "---\r\n";

/// The release that holds the notes of a version: the one tagged with the
/// version's changelog reference or, without one, with the version's name, in
/// the project `org/repo` that the setting names.
pub open spec fn github_release_wanted(
    setting: Option<&SettingValue>,
    version_name: Seq<char>,
    version_info: VersionInfo,
) -> Option<ReleaseRequestView> {
    match setting_string(setting) {
        Some(project_name) => if project_name.contains('/') {
            let i = first_index(project_name, '/');
            Some(
                ReleaseRequestView {
                    org: project_name.subrange(0, i),
                    repo: project_name.subrange(i + 1, project_name.len() as int),
                    tag: match version_info.changelog {
                        Some(reference) => reference@,
                        None => version_name,
                    },
                },
            )
        } else {
            None
        },
        None => None,
    }
}

/// The part of the release notes that belongs to a version: the section that
/// the version names, or all of the notes where it names none. `None` where the
/// notes have no such section.
pub open spec fn changelog_of(version_info: VersionInfo, release_notes: Seq<char>) -> Option<Seq<char>> {
    match version_info.changelog_section {
        Some(section) => piece(release_notes, CHANGELOG_SEPARATOR@, section as nat),
        None => Some(release_notes),
    }
}

/// The entry that the release notes give, if any.
pub open spec fn github_description(
    setting: Option<&SettingValue>,
    version_name: Seq<char>,
    version_info: VersionInfo,
    release_notes: Option<Seq<char>>,
) -> TextEntries {
    if github_release_wanted(setting, version_name, version_info) is Some && release_notes is Some
        && changelog_of(version_info, release_notes->0) is Some {
        seq![(CHANGELOG_LABEL@, changelog_of(version_info, release_notes->0)->0)]
    } else {
        Seq::empty()
    }
}

impl ArtifactType for GithubArtifactType {
    open spec fn release_wanted(
        &self,
        setting: Option<&SettingValue>,
        version_name: Seq<char>,
        version_info: VersionInfo,
    ) -> Option<
        ReleaseRequestView,
    > {
        github_release_wanted(setting, version_name, version_info)
    }

    open spec fn description(
        &self,
        setting: Option<&SettingValue>,
        version_name: Seq<char>,
        version_info: VersionInfo,
        release_notes: Option<Seq<char>>,
    ) -> TextEntries {
        github_description(setting, version_name, version_info, release_notes)
    }

    fn describe_request(&self, setting: Option<&SettingValue>, version: &NamedVersion) -> (r: Option<
        ReleaseRequest,
    >) {
        match setting {
            Some(SettingValue::String(project_name)) => {
                match split_once(project_name.as_str(), '/') {
                    Some((org, repo)) => {
                        proof {
                            let i = choose|i: int| #[trigger]
                                first_at(project_name@, '/', i) && org@ == project_name@.subrange(0, i)
                                    && repo@ == project_name@.subrange(
                                    i + 1,
                                    project_name@.len() as int,
                                );
                            lemma_first_index(project_name@, '/', i);
                        }
                        let tag = match &version.info().changelog {
                            Some(reference) => reference.clone(),
                            None => String::from_str(version.name()),
                        };
                        Some(
                            ReleaseRequest {
                                org: String::from_str(org),
                                repo: String::from_str(repo),
                                tag,
                            },
                        )
                    },
                    None => None,
                }
            },
            _ => None,
        }
    }

    fn describe(
        &self,
        description_map: &mut OrderedMap<String>,
        setting: Option<&SettingValue>,
        version: &NamedVersion,
        release_notes: Option<&str>,
    ) {
        let ghost before = text_entries(*description_map);
        proof {
            assert(text_insert_all(before, Seq::empty()) == before);
        }
        if self.describe_request(setting, version).is_none() {
            return ;
        }
        if let Some(release_description) = release_notes {
            proof {
                reveal_strlit("---\r\n");
            }
            let changelog = match version.info().changelog_section {
                Some(section) => split_nth(release_description, CHANGELOG_SEPARATOR, section),
                None => Some(release_description),
            };
            if let Some(text) = changelog {
                insert_text(
                    description_map,
                    String::from_str(CHANGELOG_LABEL),
                    String::from_str(text),
                );
                proof {
                    let more = seq![(CHANGELOG_LABEL@, text@)];
                    assert(more.drop_last() =~= Seq::empty());
                    assert(more.last() == (CHANGELOG_LABEL@, text@));
                    assert(text_insert_all(before, more) == text_insert(before, CHANGELOG_LABEL@, text@));
                }
            }
        }
    }

    open spec fn artifact(
        &self,
        product_name: Seq<char>,
        version: Seq<char>,
        download_spec: DownloadSpec,
        setting: Option<&SettingValue>,
    ) -> Result<ArtifactInfoView, ArtifactError> {
        match setting_string(setting) {
            Some(project_name) => Ok(
                ArtifactInfoView {
                    display_name: ArtifactDisplayTitleView::Simple("Source on GitHub"@),
                    extra_info_markdown: None,
                    icon: Some("github.png"@),
                    path: ArtifactPathView::RemoteUrl(github_tree_url(project_name, version)),
                },
            ),
            None => Err(ArtifactError::MissingSetting),
        }
    }

    open spec fn nightly_artifact_info(
        &self,
        product_name: Seq<char>,
        download_spec: DownloadSpec,
        setting: Option<&SettingValue>,
    ) -> Result<ArtifactInfoView, ArtifactError> {
        Ok(
            ArtifactInfoView {
                display_name: ArtifactDisplayTitleView::Simple("Source on GitHub"@),
                extra_info_markdown: None,
                icon: Some("github.png"@),
                path: ArtifactPathView::Empty,
            },
        )
    }

    open spec fn nightly_artifact_download(
        &self,
        product_name: Seq<char>,
        download_spec: DownloadSpec,
        setting: Option<&SettingValue>,
        nightly_config: NightlyConfig,
    ) -> Result<NightlyArtifactResponderView, ArtifactError> {
        match setting_string(setting) {
            Some(project_name) => Ok(
                NightlyArtifactResponderView::Redirect(
                    github_tree_url(project_name, download_spec.url_view()),
                ),
            ),
            None => Err(ArtifactError::MissingSetting),
        }
    }

    fn get_artifact(
        &self,
        _product_name: &str,
        version: &str,
        _download_spec: &DownloadSpec,
        setting: Option<&SettingValue>,
    ) -> (r: Result<ArtifactInfo, ArtifactError>) {
        match setting {
            Some(SettingValue::String(project_name)) => Ok(
                ArtifactInfo::new_url(
                    ArtifactDisplayTitle::simple("Source on GitHub"),
                    Some(String::from_str("github.png")),
                    tree_url(project_name.as_str(), version),
                ),
            ),
            _ => Err(ArtifactError::MissingSetting),
        }
    }

    fn get_nightly_artifact_info(
        &self,
        _product_name: &str,
        _download_spec: &DownloadSpec,
        _setting: Option<&SettingValue>,
    ) -> (r: Result<ArtifactInfo, ArtifactError>) {
        Ok(
            ArtifactInfo::new_empty(
                ArtifactDisplayTitle::simple("Source on GitHub"),
                Some(String::from_str("github.png")),
            ),
        )
    }

    fn get_nightly_artifact_download(
        &self,
        _product_name: &str,
        download_spec: &DownloadSpec,
        setting: Option<&SettingValue>,
        _nightly_config: &NightlyConfig,
    ) -> (r: Result<NightlyArtifactResponder, ArtifactError>) {
        match setting {
            Some(SettingValue::String(project_name)) => Ok(
                NightlyArtifactResponder::Redirect(
                    tree_url(project_name.as_str(), download_spec.url()),
                ),
            ),
            _ => Err(ArtifactError::MissingSetting),
        }
    }
}

} // verus!

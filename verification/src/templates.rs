//! What the pages are filled with.
use crate::artifacttype::render::RenderableArtifact;
use crate::ordered_map::OrderedMap;
use crate::sorted_map::{find, Entries, SortedMap};
use crate::storage::{PreReleasePatternEntry, Product};
use crate::text::{concat3, join, join_spec, lowercase, to_lowercase, views};
use vstd::prelude::*;

verus! {

/// The page for what was not found.
pub struct Template404 {
    pub self_name: String,
    pub theme_name: String,
    pub home_url: String,
}

/// The page for a failure of the server.
pub struct Template500 {
    pub self_name: String,
    pub theme_name: String,
    pub home_url: String,
}

/// The list of products.
pub struct TemplateProducts<'a> {
    pub self_name: String,
    pub theme_name: String,
    pub home_url: String,
    pub default_endpoint_url: String,
    pub products: &'a OrderedMap<Product>,
}

/// The list of a product's releases.
pub struct TemplateReleases<'a> {
    pub self_name: String,
    pub theme_name: String,
    pub home_url: String,
    pub default_endpoint_url: String,
    pub product_key: String,
    pub product: &'a Product,
    pub pre_release_patterns: &'a Vec<PreReleasePatternEntry>,
}

/// One release.
pub struct TemplateRelease {
    pub self_name: String,
    pub theme_name: String,
    pub home_url: String,
    pub default_endpoint_url: String,
    pub product_key: String,
    pub release_key: String,
    pub product_title: String,
    pub product_version: String,
    pub product_version_prev: Option<String>,
    pub product_version_next: Option<String>,
    pub release_date: String,
    pub product_icon: Option<String>,
    pub description: Option<String>,
    pub extra_description: OrderedMap<String>,
    pub pre_release: Option<String>,
    pub artifacts: Vec<RenderableArtifact>,
    pub endpoints: Vec<(String, String)>,
    pub auto_endpoint: String,
    pub translate_note_text_en: Option<String>,
    pub translate_note_text: Option<String>,
}

/// The nightly builds of a product.
pub struct TemplateNightly {
    pub self_name: String,
    pub theme_name: String,
    pub home_url: String,
    pub product_key: String,
    pub product_title: String,
    pub product_icon: Option<String>,
    pub default_endpoint_url: String,
    pub last_built_time: Option<i64>,
    pub description: String,
    pub downloads: DownloadGridTemplate,
}

/// A grid of downloads.
pub struct DownloadGridTemplate {
    pub theme_name: String,
    pub auto_endpoint: String,
    pub show_file_size_and_date: bool,
    pub artifacts: Vec<RenderableArtifact>,
}

/// The link that is followed without a choice of endpoint: the artifact's URL on
/// `auto_endpoint`, else its first URL, else `#`.
pub open spec fn default_href(urls: Entries, auto_endpoint: Seq<char>) -> Seq<char> {
    match find(urls, auto_endpoint) {
        Some(i) => urls[i].1,
        None => if urls.len() > 0 {
            urls[0].1
        } else {
            "#"@
        },
    }
}

/// The attribute that carries the artifact's URL on one endpoint.
pub open spec fn data_href(name: Seq<char>, url: Seq<char>) -> Seq<char> {
    "data-href-"@ + lowercase(name) + "=\""@ + url + "\""@
}

/// The attributes of a download link: the default link first, then one
/// attribute for each endpoint in the order of the names.
pub open spec fn link_attributes(urls: Entries, auto_endpoint: Seq<char>) -> Seq<Seq<char>> {
    seq!["href=\""@ + default_href(urls, auto_endpoint) + "\""@] + Seq::new(
        urls.len(),
        |i: int| data_href(urls[i].0, urls[i].1),
    )
}

/// The attributes of a download link, separated by spaces.
pub fn endpoint_links(urls: &SortedMap, auto_endpoint: &str) -> (r: String)
    ensures
        r@ == join_spec(link_attributes(urls@, auto_endpoint@), " "@),
{
    let n = urls.len();
    let href = match urls.get(auto_endpoint) {
        Some(url) => {
            proof {
                crate::sorted_map::lemma_find_unique(urls@, auto_endpoint@);
            }
            url
        },
        None => if n > 0 {
            urls.value_at(0)
        } else {
            "#"
        },
    };
    let mut out: Vec<String> = Vec::new();
    out.push(concat3("href=\"", href, "\""));
    let mut i: usize = 0;
    while i < n
        invariant
            i <= n,
            n == urls@.len(),
            out@.len() == i + 1,
            forall|k: int| 0 <= k < out@.len() ==> (#[trigger] out@[k])@ == link_attributes(urls@, auto_endpoint@)[k],
        decreases n - i,
    {
        let name = to_lowercase(urls.key_at(i));
        let mut attribute = concat3("data-href-", name.as_str(), "=\"");
        attribute.append(urls.value_at(i));
        attribute.append("\"");
        out.push(attribute);
        i = i + 1;
    }
    proof {
        assert(views(out@) =~= link_attributes(urls@, auto_endpoint@));
    }
    join(&out, " ")
}

} // verus!

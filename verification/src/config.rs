//! The portal's configuration: the endpoints and the settings of the site.
use crate::artifacttype::{ArtifactType, ArtifactTypes};
use crate::endpoints_env::{
    do_load_from_env, drafts_upto, endpoint_views, loaded_endpoints, DraftView, EndpointsError,
};
use crate::geoip::{distance_keys, find_best_location, is_best, sort_by_location, usable};
use crate::sorting::is_stable_order;
use crate::storage::{ProductsConfig, Storage};
use crate::text::{trim, trimmed};
use vstd::prelude::*;

verus! {

/// A content origin: one of the redundant places that serve the catalog and the
/// artifacts.
pub struct Endpoint {
    pub key: String,
    pub display_name: String,
    pub url: String,
    /// Latitude and longitude as the configuration writes them, separated by a
    /// space.
    pub location: String,
}

/// Whether no two endpoints share a key.
pub open spec fn distinct_keys(endpoints: Seq<Endpoint>) -> bool {
    forall|i: int, j: int|
        0 <= i < j < endpoints.len() ==> (#[trigger] endpoints[i]).key@ != (#[trigger] endpoints[j]).key@
}

/// The endpoints in priority order: the order of failover and of display.
pub struct Endpoints {
    loaded: Vec<Endpoint>,
}

impl View for Endpoints {
    type V = Seq<Endpoint>;

    closed spec fn view(&self) -> Seq<Endpoint> {
        self.loaded@
    }
}

impl Endpoints {
    #[verifier::type_invariant]
    spec fn inv(self) -> bool {
        distinct_keys(self.loaded@)
    }

    /// The set of these endpoints, or `None` where two of them share a key.
    pub fn new(endpoints: Vec<Endpoint>) -> (r: Option<Self>)
        ensures
            r is Some <==> distinct_keys(endpoints@),
            r is Some ==> r->0@ == endpoints@,
    {
        let mut j: usize = 0;
        while j < endpoints.len()
            invariant
                j <= endpoints.len(),
                distinct_keys(endpoints@.take(j as int)),
            decreases endpoints.len() - j,
        {
            let mut i: usize = 0;
            while i < j
                invariant
                    i <= j < endpoints.len(),
                    forall|k: int| 0 <= k < i ==> (#[trigger] endpoints@[k]).key@ != endpoints@[j as int].key@,
                decreases j - i,
            {
                if endpoints[i].key == endpoints[j].key {
                    return None;
                }
                i = i + 1;
            }
            proof {
                let next = endpoints@.take(j + 1);
                let prev = endpoints@.take(j as int);
                assert forall|a: int, b: int| 0 <= a < b < next.len() implies (#[trigger] next[a]).key@
                    != (#[trigger] next[b]).key@ by {
                    if b < j {
                        assert(prev[a] == next[a] && prev[b] == next[b]);
                    }
                }
            }
            j = j + 1;
        }
        proof {
            assert(endpoints@.take(endpoints@.len() as int) =~= endpoints@);
        }
        Some(Endpoints { loaded: endpoints })
    }

    /// The endpoints that the environment's variables describe.
    pub fn load(vars: &Vec<(String, String)>) -> (r: Result<Self, EndpointsError>)
        ensures
            match r {
                Ok(endpoints) => loaded_endpoints(vars@, endpoint_views(endpoints@)),
                Err(e) => drafts_upto(vars@, vars@.len() as int) == Err::<
                    (Seq<Seq<char>>, Seq<DraftView>),
                    EndpointsError,
                >(e),
            },
    {
        match do_load_from_env(vars) {
            Ok(loaded) => Ok(Endpoints { loaded }),
            Err(e) => Err(e),
        }
    }

    /// The endpoints ordered by distance, the closest first, for a portal that
    /// fixes its order once; endpoints at one distance keep their order, and an
    /// endpoint whose distance could not be measured counts as `UNKNOWN_DISTANCE`
    /// metres away. The order stays as it is where the place to measure from is
    /// not known or the list of distances does not fit the endpoints.
    pub fn sorted_by_location(self, distances: Option<&Vec<Option<u64>>>) -> (r: Self)
        ensures
            match distances {
                Some(d) if d@.len() == self@.len() => exists|order: Seq<usize>|
                    {
                        &&& #[trigger] is_stable_order(distance_keys(d@), order)
                        &&& r@.len() == self@.len()
                        &&& forall|k: int| 0 <= k < order.len() ==> #[trigger] r@[k] == self@[order[k] as int]
                    },
                _ => r@ == self@,
            },
    {
        proof {
            use_type_invariant(&self);
        }
        let mut loaded = self.loaded;
        sort_by_location(&mut loaded, distances);
        Endpoints { loaded }
    }

    /// All endpoints, in priority order.
    pub fn get_all(&self) -> (r: &Vec<Endpoint>)
        ensures
            r@ == self@,
            distinct_keys(self@),
    {
        proof {
            use_type_invariant(self);
        }
        &self.loaded
    }
}

pub const HOME_URL_VAR: &'static str = "DEPBOX_HOME_URL";

pub const SELF_NAME_VAR: &'static str = "DEPBOX_SELF_NAME";

pub const THEME_VAR: &'static str = "DEPBOX_THEME";

pub const RELEASE_INFO_ENABLE_VAR: &'static str = "DEPBOX_RELEASE_INFO_ENABLE";

pub const RELEASE_INFO_DOMAIN_VAR: &'static str = "DEPBOX_RELEASE_INFO_DOMAIN";

pub const BANNER_ENABLE_VAR: &'static str = "DEPBOX_BANNER_ENABLE";

pub const MAXMINDDB_PATH_VAR: &'static str = "DEPBOX_MAXMINDDB_PATH";

pub const GITHUB_TOKEN_VAR: &'static str = "DEPBOX_GITHUB_TOKEN";

pub const PRODUCTS_YML_PATH_VAR: &'static str = "DEPBOX_OVERWRITE_PRODUCTS_YML_PATH";

/// Whether `i` is the first variable with the name `name`.
pub open spec fn var_at(vars: Seq<(String, String)>, name: Seq<char>, i: int) -> bool {
    &&& 0 <= i < vars.len()
    &&& vars[i].0@ == name
    &&& forall|j: int| 0 <= j < i ==> (#[trigger] vars[j]).0@ != name
}

/// The value of the variable `name`: that of the first variable with this name.
pub open spec fn var_value(vars: Seq<(String, String)>, name: Seq<char>) -> Option<Seq<char>> {
    if exists|i: int| var_at(vars, name, i) {
        Some(vars[choose|i: int| var_at(vars, name, i)].1@)
    } else {
        None
    }
}

/// Whether the switch `name` is on: the variable is set, and to something other
/// than `0` with white space around it.
pub open spec fn flag_value(vars: Seq<(String, String)>, name: Seq<char>) -> bool {
    match var_value(vars, name) {
        Some(value) => trimmed(value) != "0"@,
        None => false,
    }
}

/// The value of an environment variable, or `None` where it is not set.
pub fn get_checked<'a>(vars: &'a Vec<(String, String)>, name: &str) -> (r: Option<&'a str>)
    ensures
        match r {
            Some(value) => var_value(vars@, name@) == Some(value@),
            None => var_value(vars@, name@) is None,
        },
{
    let mut i: usize = 0;
    while i < vars.len()
        invariant
            i <= vars.len(),
            forall|j: int| 0 <= j < i ==> (#[trigger] vars@[j]).0@ != name@,
        decreases vars.len() - i,
    {
        if vars[i].0.as_str().eq(name) {
            proof {
                assert(var_at(vars@, name@, i as int));
                let c = choose|c: int| var_at(vars@, name@, c);
                assert(c == i) by {
                    if c < i {
                        assert(vars@[c].0@ != name@);
                    } else if i < c {
                        assert(vars@[i as int].0@ == name@);
                    }
                }
            }
            let value = vars[i].1.as_str();
            assert(var_value(vars@, name@) == Some(value@));
            return Some(value);
        }
        i = i + 1;
    }
    None
}

/// Whether a switch is on.
pub fn get_flag(vars: &Vec<(String, String)>, name: &str) -> (r: bool)
    ensures
        r == flag_value(vars@, name@),
{
    match get_checked(vars, name) {
        Some(value) => !trim(value).eq("0"),
        None => false,
    }
}

/// Whether the environment configures a portal: there is an endpoint, the home
/// URL and the theme are set, and so is the release information's host where
/// release information is switched on.
pub open spec fn env_ok(endpoints: Seq<Endpoint>, vars: Seq<(String, String)>) -> bool {
    &&& endpoints.len() > 0
    &&& var_value(vars, HOME_URL_VAR@) is Some
    &&& var_value(vars, THEME_VAR@) is Some
    &&& flag_value(vars, RELEASE_INFO_ENABLE_VAR@) ==> var_value(vars, RELEASE_INFO_DOMAIN_VAR@) is Some
}

/// The name of the site where none is configured.
pub struct SelfName;

impl SelfName {
    /// The name of the site where none is configured.
    pub fn default_value() -> (r: String)
        ensures
            r@ == "Deposit Box"@,
    {
        String::from_str("Deposit Box")
    }
}

/// Where the catalog is read from.
pub enum CatalogSource {
    /// A local file, for development.
    File(String),
    /// The endpoints, in priority order and through the cache.
    Endpoints,
}

/// The configuration of a running portal. It has at least one endpoint.
pub struct Config<T: ArtifactType> {
    banner: bool,
    release_info: Option<String>,
    storage: Storage,
    artifacttypes: ArtifactTypes<T>,
    theme: String,
    home_url: String,
    self_name: String,
    /// A local file to read the catalog from instead of the endpoints, for
    /// development.
    products_yml_path: Option<String>,
}

impl<T: ArtifactType> Config<T> {
    #[verifier::type_invariant]
    spec fn inv(self) -> bool {
        self.storage.endpoints_view().len() > 0
    }

    /// Whether the banner is served.
    pub closed spec fn banner_view(&self) -> bool {
        self.banner
    }

    /// The host that serves release information only, if there is one.
    pub closed spec fn release_info_view(&self) -> Option<Seq<char>> {
        match self.release_info {
            Some(domain) => Some(domain@),
            None => None,
        }
    }

    /// The name of the site.
    pub closed spec fn self_name_view(&self) -> Seq<char> {
        self.self_name@
    }

    /// The theme of the site.
    pub closed spec fn theme_view(&self) -> Seq<char> {
        self.theme@
    }

    /// The URL behind the site's home link.
    pub closed spec fn home_url_view(&self) -> Seq<char> {
        self.home_url@
    }

    /// The registry of artifact types.
    pub closed spec fn artifact_types_view(&self) -> ArtifactTypes<T> {
        self.artifacttypes
    }

    /// The endpoints in priority order.
    pub closed spec fn endpoints_view(&self) -> Seq<Endpoint> {
        self.storage.endpoints_view()
    }

    /// The local file that stands in for the catalog, if one is configured.
    pub closed spec fn products_yml_path_view(&self) -> Option<Seq<char>> {
        match self.products_yml_path {
            Some(path) => Some(path@),
            None => None,
        }
    }

    /// Checks the settings that a portal cannot run without.
    pub fn check_env(endpoints: &Endpoints, vars: &Vec<(String, String)>) -> (r: bool)
        ensures
            r == env_ok(endpoints@, vars@),
    {
        if endpoints.get_all().len() == 0 {
            return false;
        }
        if get_checked(vars, HOME_URL_VAR).is_none() {
            return false;
        }
        if get_checked(vars, THEME_VAR).is_none() {
            return false;
        }
        if get_flag(vars, RELEASE_INFO_ENABLE_VAR) {
            if get_checked(vars, RELEASE_INFO_DOMAIN_VAR).is_none() {
                return false;
            }
        }
        true
    }

    /// The configuration that the environment describes, for these endpoints and
    /// artifact types. `theme_exists` says whether the theme's directory of static
    /// files is there. `Err` where the environment configures no portal or the
    /// theme's files are missing.
    pub fn load(
        artifacttypes: ArtifactTypes<T>,
        endpoints: Endpoints,
        vars: &Vec<(String, String)>,
        theme_exists: bool,
    ) -> (r: Result<Self, ()>)
        ensures
            r is Ok <==> env_ok(endpoints@, vars@) && theme_exists,
            r matches Ok(config) ==> {
                &&& config.endpoints_view() == endpoints@
                &&& config.artifact_types_view() == artifacttypes
                &&& config.banner_view() == flag_value(vars@, BANNER_ENABLE_VAR@)
                &&& config.release_info_view() == if flag_value(vars@, RELEASE_INFO_ENABLE_VAR@) {
                    var_value(vars@, RELEASE_INFO_DOMAIN_VAR@)
                } else {
                    None
                }
                &&& Some(config.theme_view()) == var_value(vars@, THEME_VAR@)
                &&& Some(config.home_url_view()) == var_value(vars@, HOME_URL_VAR@)
                &&& config.self_name_view() == match var_value(vars@, SELF_NAME_VAR@) {
                    Some(name) => name,
                    None => "Deposit Box"@,
                }
                &&& config.products_yml_path_view() == var_value(vars@, PRODUCTS_YML_PATH_VAR@)
            },
    {
        if !Self::check_env(&endpoints, vars) || !theme_exists {
            return Err(());
        }
        let release_info = if get_flag(vars, RELEASE_INFO_ENABLE_VAR) {
            match get_checked(vars, RELEASE_INFO_DOMAIN_VAR) {
                Some(domain) => Some(String::from_str(domain)),
                None => None,
            }
        } else {
            None
        };
        let theme = match get_checked(vars, THEME_VAR) {
            Some(theme) => String::from_str(theme),
            None => String::new(),
        };
        let home_url = match get_checked(vars, HOME_URL_VAR) {
            Some(url) => String::from_str(url),
            None => String::new(),
        };
        let self_name = match get_checked(vars, SELF_NAME_VAR) {
            Some(name) => String::from_str(name),
            None => SelfName::default_value(),
        };
        let products_yml_path = match get_checked(vars, PRODUCTS_YML_PATH_VAR) {
            Some(path) => Some(String::from_str(path)),
            None => None,
        };
        let storage = match Storage::new(endpoints) {
            Ok(storage) => storage,
            Err(_) => {
                return Err(());
            },
        };
        Ok(
            Config {
                banner: get_flag(vars, BANNER_ENABLE_VAR),
                release_info,
                storage,
                artifacttypes,
                theme,
                home_url,
                self_name,
                products_yml_path,
            },
        )
    }

    /// Whether the banner is served.
    pub fn provide_banner(&self) -> (r: bool)
        ensures
            r == self.banner_view(),
    {
        self.banner
    }

    /// The host that serves release information only, if there is one.
    pub fn get_release_info(&self) -> (r: &Option<String>)
        ensures
            r is Some <==> self.release_info_view() is Some,
            r is Some ==> r->0@ == self.release_info_view()->0,
    {
        &self.release_info
    }

    /// The name of the site.
    pub fn self_name(&self) -> (r: &str)
        ensures
            r@ == self.self_name_view(),
    {
        self.self_name.as_str()
    }

    /// The URL of the endpoint of highest priority.
    pub fn default_endpoint_url(&self) -> (r: &str)
        ensures
            self.endpoints_view().len() > 0,
            r@ == self.endpoints_view()[0].url@,
    {
        proof {
            use_type_invariant(self);
        }
        self.storage.endpoints().get_all()[0].url.as_str()
    }

    /// The theme of the site.
    pub fn theme(&self) -> (r: &str)
        ensures
            r@ == self.theme_view(),
    {
        self.theme.as_str()
    }

    /// The URL behind the site's home link.
    pub fn home_url(&self) -> (r: &str)
        ensures
            r@ == self.home_url_view(),
    {
        self.home_url.as_str()
    }

    /// The registry of artifact types.
    pub fn artifact_types(&self) -> (r: &ArtifactTypes<T>)
        ensures
            *r == self.artifact_types_view(),
    {
        &self.artifacttypes
    }

    /// The endpoints in priority order.
    pub fn endpoints(&self) -> (r: &Endpoints)
        ensures
            r@ == self.endpoints_view(),
            r@.len() > 0,
    {
        proof {
            use_type_invariant(self);
        }
        self.storage.endpoints()
    }

    /// The local file that stands in for the catalog, if one is configured.
    pub fn products_yml_path(&self) -> (r: &Option<String>)
        ensures
            r is Some <==> self.products_yml_path_view() is Some,
            r is Some ==> r->0@ == self.products_yml_path_view()->0,
    {
        &self.products_yml_path
    }

    /// The banner's target URL file, where the catalog could be had and names a
    /// banner.
    pub fn get_banner_url_url(&self, catalog: Option<&ProductsConfig>) -> (r: Option<String>)
        ensures
            crate::artifacttype::opt_view(r) == match catalog {
                Some(c) => match c.banner {
                    Some(b) => Some(b.url_file@),
                    None => None,
                },
                None => None,
            },
    {
        match catalog {
            Some(c) => match &c.banner {
                Some(b) => Some(b.url_file.clone()),
                None => None,
            },
            None => None,
        }
    }

    /// The banner's image file, where the catalog could be had and names a
    /// banner.
    pub fn get_banner_png_url(&self, catalog: Option<&ProductsConfig>) -> (r: Option<String>)
        ensures
            crate::artifacttype::opt_view(r) == match catalog {
                Some(c) => match c.banner {
                    Some(b) => Some(b.image_file@),
                    None => None,
                },
                None => None,
            },
    {
        match catalog {
            Some(c) => match &c.banner {
                Some(b) => Some(b.image_file.clone()),
                None => None,
            },
            None => None,
        }
    }

    /// Where the catalog is read from: the local file that is configured in its
    /// place, else the endpoints.
    pub fn get_config(&self) -> (r: CatalogSource)
        ensures
            match r {
                CatalogSource::File(path) => self.products_yml_path_view() == Some(path@),
                CatalogSource::Endpoints => self.products_yml_path_view() is None,
            },
    {
        match &self.products_yml_path {
            Some(path) => CatalogSource::File(path.clone()),
            None => CatalogSource::Endpoints,
        }
    }

    /// The endpoint closest to a client, given each endpoint's distance from it;
    /// the first endpoint where the client's place is not known, a distance could
    /// not be measured or the list of distances does not fit the endpoints.
    pub fn find_best_location(&self, distances: Option<&Vec<Option<u64>>>) -> (r: &Endpoint)
        ensures
            exists|i: int| #[trigger]
                is_best(distances, self.endpoints_view().len(), i) && 0 <= i
                    < self.endpoints_view().len() && *r == self.endpoints_view()[i],
            !usable(distances, self.endpoints_view().len()) ==> *r == self.endpoints_view()[0],
    {
        proof {
            use_type_invariant(self);
        }
        let all = self.storage.endpoints().get_all();
        let best = find_best_location(all, distances);
        proof {
            let i = choose|i: int| #[trigger]
                is_best(distances, all@.len(), i) && 0 <= i < all@.len() && *best == all@[i];
            assert(is_best(distances, self.endpoints_view().len(), i));
        }
        best
    }
}

} // verus!

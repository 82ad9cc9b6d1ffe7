//! Data model of the cloud provider's wire contract and the wizard's static
//! region catalog, together with the mathematical view of each type.

use vstd::prelude::*;
use vstd::string::StrSliceExecFns;
use vstd::string::StringExecFns;

verus! {

/// Number of entries in the static region catalog.
pub const REGION_COUNT: usize = 5;

// ---------------------------------------------------------------------------
// Region catalog
// ---------------------------------------------------------------------------

/// A selectable deployment region: display name, provider slug and a short
/// human description.  The catalog is static and read-only.
pub struct RegionOption {
    pub name: String,
    pub slug: String,
    pub description: String,
}

/// Mathematical view of a `RegionOption`.
#[verifier::ext_equal]
pub struct RegionModel {
    pub name: Seq<char>,
    pub slug: Seq<char>,
    pub description: Seq<char>,
}

impl View for RegionOption {
    type V = RegionModel;

    open spec fn view(&self) -> RegionModel {
        RegionModel { name: self.name@, slug: self.slug@, description: self.description@ }
    }
}

/// The catalog entry at index `i`, as the contracts speak of it.
pub open spec fn region_model(i: int) -> RegionModel {
    if i == 0 {
        RegionModel { name: "New York"@, slug: "nyc1"@, description: "NYC - United States"@ }
    } else if i == 1 {
        RegionModel { name: "San Francisco"@, slug: "sfo3"@, description: "SF - United States"@ }
    } else if i == 2 {
        RegionModel { name: "Amsterdam"@, slug: "ams3"@, description: "AMS - Netherlands"@ }
    } else if i == 3 {
        RegionModel { name: "Singapore"@, slug: "sgp1"@, description: "SG - Singapore"@ }
    } else {
        RegionModel { name: "Sydney"@, slug: "syd1"@, description: "SYD - Australia"@ }
    }
}

impl RegionOption {
    /// The static catalog of selectable regions.
    pub fn available_regions() -> (regions: Vec<RegionOption>)
        ensures
            regions@.len() == REGION_COUNT,
            forall|i: int| 0 <= i < REGION_COUNT ==> #[trigger] regions@[i]@ == region_model(i),
    {
        let mut regions: Vec<RegionOption> = Vec::new();
        regions.push(
            RegionOption {
                name: "New York".to_owned(),
                slug: "nyc1".to_owned(),
                description: "NYC - United States".to_owned(),
            },
        );
        regions.push(
            RegionOption {
                name: "San Francisco".to_owned(),
                slug: "sfo3".to_owned(),
                description: "SF - United States".to_owned(),
            },
        );
        regions.push(
            RegionOption {
                name: "Amsterdam".to_owned(),
                slug: "ams3".to_owned(),
                description: "AMS - Netherlands".to_owned(),
            },
        );
        regions.push(
            RegionOption {
                name: "Singapore".to_owned(),
                slug: "sgp1".to_owned(),
                description: "SG - Singapore".to_owned(),
            },
        );
        regions.push(
            RegionOption {
                name: "Sydney".to_owned(),
                slug: "syd1".to_owned(),
                description: "SYD - Australia".to_owned(),
            },
        );
        proof {
            assert(regions@[0]@ =~= region_model(0));
            assert(regions@[1]@ =~= region_model(1));
            assert(regions@[2]@ =~= region_model(2));
            assert(regions@[3]@ =~= region_model(3));
            assert(regions@[4]@ =~= region_model(4));
        }
        regions
    }

    /// Copies a catalog entry.
    pub fn duplicate(&self) -> (r: RegionOption)
        ensures
            r@ == self@,
    {
        RegionOption {
            name: self.name.clone(),
            slug: self.slug.clone(),
            description: self.description.clone(),
        }
    }
}

// ---------------------------------------------------------------------------
// Provider wire model
// ---------------------------------------------------------------------------

/// One IPv4 interface of an instance, as the provider reports it.
pub struct NetworkV4 {
    pub ip_address: String,
    pub netmask: String,
    pub network_type: String,
}

/// Mathematical view of a `NetworkV4`.
#[verifier::ext_equal]
pub struct NetworkV4Model {
    pub ip_address: Seq<char>,
    pub netmask: Seq<char>,
    pub network_type: Seq<char>,
}

impl View for NetworkV4 {
    type V = NetworkV4Model;

    open spec fn view(&self) -> NetworkV4Model {
        NetworkV4Model {
            ip_address: self.ip_address@,
            netmask: self.netmask@,
            network_type: self.network_type@,
        }
    }
}

/// The network address list of an instance.
pub struct Networks {
    pub v4: Vec<NetworkV4>,
}

impl View for Networks {
    type V = Seq<NetworkV4Model>;

    open spec fn view(&self) -> Seq<NetworkV4Model> {
        self.v4@.map_values(|n: NetworkV4| n@)
    }
}

/// The provider's description of an instance's region.
pub struct Region {
    pub name: String,
    pub slug: String,
}

/// Mathematical view of a `Region`.
#[verifier::ext_equal]
pub struct RegionViewModel {
    pub name: Seq<char>,
    pub slug: Seq<char>,
}

impl View for Region {
    type V = RegionViewModel;

    open spec fn view(&self) -> RegionViewModel {
        RegionViewModel { name: self.name@, slug: self.slug@ }
    }
}

/// A provider-managed instance as observed by polling.  The provider owns
/// the status; the engine only reads it.
pub struct Droplet {
    pub id: u64,
    pub name: String,
    pub status: String,
    pub networks: Networks,
    pub region: Region,
}

/// Mathematical view of a `Droplet`.
#[verifier::ext_equal]
pub struct DropletModel {
    pub id: u64,
    pub name: Seq<char>,
    pub status: Seq<char>,
    pub networks: Seq<NetworkV4Model>,
    pub region: RegionViewModel,
}

impl View for Droplet {
    type V = DropletModel;

    open spec fn view(&self) -> DropletModel {
        DropletModel {
            id: self.id,
            name: self.name@,
            status: self.status@,
            networks: self.networks@,
            region: self.region@,
        }
    }
}

impl NetworkV4 {
    /// Copies one interface record.
    pub fn duplicate(&self) -> (r: NetworkV4)
        ensures
            r@ == self@,
    {
        NetworkV4 {
            ip_address: self.ip_address.clone(),
            netmask: self.netmask.clone(),
            network_type: self.network_type.clone(),
        }
    }
}

impl Networks {
    /// Copies the interface list.
    pub fn duplicate(&self) -> (r: Networks)
        ensures
            r@ == self@,
    {
        let mut v4: Vec<NetworkV4> = Vec::new();
        let mut i: usize = 0;
        while i < self.v4.len()
            invariant
                i <= self.v4@.len(),
                v4@.len() == i,
                forall|j: int| 0 <= j < i ==> #[trigger] v4@[j]@ == self.v4@[j]@,
            decreases self.v4@.len() - i,
        {
            v4.push(self.v4[i].duplicate());
            i += 1;
        }
        let r = Networks { v4 };
        proof {
            assert(r@ =~= self@);
        }
        r
    }
}

impl Region {
    /// Copies a region record.
    pub fn duplicate(&self) -> (r: Region)
        ensures
            r@ == self@,
    {
        Region { name: self.name.clone(), slug: self.slug.clone() }
    }
}

impl Droplet {
    /// Copies an observed instance record.
    pub fn duplicate(&self) -> (r: Droplet)
        ensures
            r@ == self@,
    {
        Droplet {
            id: self.id,
            name: self.name.clone(),
            status: self.status.clone(),
            networks: self.networks.duplicate(),
            region: self.region.duplicate(),
        }
    }
}

/// The account behind a credential, as the identity endpoint reports it.
pub struct Account {
    pub email: String,
    pub uuid: String,
    pub email_verified: bool,
    pub status: String,
}

/// Envelope of the identity endpoint's response.
pub struct AccountResponse {
    pub account: Account,
}

/// The essentials of a successfully provisioned server.
pub struct ServerInfo {
    pub name: String,
    pub ip: String,
}

/// Mathematical view of a `ServerInfo`.
#[verifier::ext_equal]
pub struct ServerInfoModel {
    pub name: Seq<char>,
    pub ip: Seq<char>,
}

impl View for ServerInfo {
    type V = ServerInfoModel;

    open spec fn view(&self) -> ServerInfoModel {
        ServerInfoModel { name: self.name@, ip: self.ip@ }
    }
}

// ---------------------------------------------------------------------------
// Public address lookup
// ---------------------------------------------------------------------------

/// Whether an interface is a public IPv4 interface.
pub open spec fn is_public_v4(n: NetworkV4Model) -> bool {
    n.network_type == "public"@
}

/// The address of the first public IPv4 interface, if any.
pub open spec fn spec_public_ip(nets: Seq<NetworkV4Model>) -> Option<Seq<char>>
    decreases nets.len(),
{
    if nets.len() == 0 {
        None
    } else if is_public_v4(nets[0]) {
        Some(nets[0].ip_address)
    } else {
        spec_public_ip(nets.skip(1))
    }
}

proof fn lemma_public_ip_step(nets: Seq<NetworkV4Model>, i: int)
    requires
        0 <= i < nets.len(),
        !is_public_v4(nets[i]),
    ensures
        spec_public_ip(nets.skip(i)) == spec_public_ip(nets.skip(i + 1)),
{
    assert(nets.skip(i).len() > 0);
    assert(nets.skip(i)[0] == nets[i]);
    assert(nets.skip(i).skip(1) =~= nets.skip(i + 1));
}

/// Finds the address of the first public IPv4 interface in the list.
pub fn find_public_ip(nets: &Networks) -> (r: Option<String>)
    ensures
        match r {
            Some(ip) => spec_public_ip(nets@) == Some(ip@),
            None => spec_public_ip(nets@) == None::<Seq<char>>,
        },
{
    let public_label: String = "public".to_owned();
    let mut i: usize = 0;
    proof {
        assert(nets@.skip(0) =~= nets@);
    }
    while i < nets.v4.len()
        invariant
            i <= nets.v4@.len(),
            public_label@ == "public"@,
            nets@ == nets.v4@.map_values(|n: NetworkV4| n@),
            spec_public_ip(nets@.skip(i as int)) == spec_public_ip(nets@),
        decreases nets.v4@.len() - i,
    {
        if nets.v4[i].network_type == public_label {
            proof {
                assert(nets@.skip(i as int)[0] == nets@[i as int]);
                assert(is_public_v4(nets@[i as int]));
            }
            return Some(nets.v4[i].ip_address.clone());
        }
        proof {
            assert(nets@[i as int] == nets.v4@.map_values(|n: NetworkV4| n@)[i as int]);
            assert(!is_public_v4(nets@[i as int]));
            lemma_public_ip_step(nets@, i as int);
        }
        i += 1;
    }
    proof {
        assert(nets@.skip(i as int).len() == 0);
    }
    None
}

// ---------------------------------------------------------------------------
// Provisioning request
// ---------------------------------------------------------------------------

/// The request submitted to the instance-creation endpoint.  The bootstrap
/// script travels beside it as opaque user data.
pub struct DropletRequest {
    pub name: String,
    pub region: String,
    pub size: String,
    pub image: String,
    pub ssh_keys: Vec<String>,
    pub monitoring: bool,
    pub tags: Vec<String>,
}

/// Mathematical view of a `DropletRequest`.
#[verifier::ext_equal]
pub struct DropletRequestModel {
    pub name: Seq<char>,
    pub region: Seq<char>,
    pub size: Seq<char>,
    pub image: Seq<char>,
    pub ssh_keys: Seq<Seq<char>>,
    pub monitoring: bool,
    pub tags: Seq<Seq<char>>,
}

impl View for DropletRequest {
    type V = DropletRequestModel;

    open spec fn view(&self) -> DropletRequestModel {
        DropletRequestModel {
            name: self.name@,
            region: self.region@,
            size: self.size@,
            image: self.image@,
            ssh_keys: self.ssh_keys@.map_values(|s: String| s@),
            monitoring: self.monitoring,
            tags: self.tags@.map_values(|s: String| s@),
        }
    }
}

/// Relies on `uuid::Uuid::new_v4` and its `Display` impl: a freshly drawn
/// random version-4 UUID, rendered in the 36-character hyphenated form.
/// Nothing is promised about which UUID comes back.
#[verifier::external_body]
fn random_uuid_string() -> (r: String)
    ensures
        r@.len() == 36,
{
    uuid::Uuid::new_v4().to_string()
}

/// The fixed prefix of every generated instance name.
pub open spec fn name_prefix() -> Seq<char> {
    "tailscale-vpn-"@
}

/// Whether a request carries the fixed defaults: a unique generated name, the
/// cheapest instance size, the standard image, monitoring on and the
/// deployment tag.  The name's random suffix is the one part left open.
pub open spec fn is_default_request(r: DropletRequestModel, region: Seq<char>) -> bool {
    &&& r.name.len() == name_prefix().len() + 8
    &&& r.name.subrange(0, name_prefix().len() as int) == name_prefix()
    &&& r.region == region
    &&& r.size == "s-1vcpu-512mb-10gb"@
    &&& r.image == "ubuntu-24-04-x64"@
    &&& r.ssh_keys == Seq::<Seq<char>>::empty()
    &&& r.monitoring == true
    &&& r.tags == seq!["tailscale-vpn"@]
}

impl Default for DropletRequest {
    /// A request for the default region, named after a freshly drawn UUID.
    fn default() -> (r: Self)
        ensures
            is_default_request(r@, "nyc1"@),
    {
        let uuid_text = random_uuid_string();
        DropletRequest::request_from_uuid(uuid_text.as_str(), &"nyc1".to_owned())
    }
}

impl DropletRequest {
    /// The request built over a drawn name text: the instance name is the
    /// fixed prefix followed by exactly the first eight characters of
    /// `uuid_text`, and every other field carries the defaults for `slug`.
    pub fn request_from_uuid(uuid_text: &str, slug: &String) -> (r: Self)
        requires
            uuid_text@.len() >= 8,
        ensures
            r@.name == name_prefix() + uuid_text@.subrange(0, 8),
            is_default_request(r@, slug@),
    {
        let suffix = uuid_text.substring_char(0, 8);
        let name = String::from_str("tailscale-vpn-").concat(suffix);
        let mut tags: Vec<String> = Vec::new();
        tags.push("tailscale-vpn".to_owned());
        let r = DropletRequest {
            name,
            region: slug.clone(),
            size: "s-1vcpu-512mb-10gb".to_owned(),
            image: "ubuntu-24-04-x64".to_owned(),
            ssh_keys: Vec::new(),
            monitoring: true,
            tags,
        };
        proof {
            reveal_strlit("tailscale-vpn-");
            assert(r@.name.subrange(0, 14) =~= name_prefix());
            assert(r@.ssh_keys =~= Seq::<Seq<char>>::empty());
            assert(r@.tags =~= seq!["tailscale-vpn"@]);
        }
        r
    }

    /// A request for the given region slug, named after a freshly drawn
    /// UUID, otherwise carrying the defaults.
    pub fn for_region(slug: &String) -> (r: Self)
        ensures
            is_default_request(r@, slug@),
    {
        let uuid_text = random_uuid_string();
        DropletRequest::request_from_uuid(uuid_text.as_str(), slug)
    }
}

} // verus!

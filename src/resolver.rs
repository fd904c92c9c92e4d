use vstd::prelude::*;
use crate::text::{replace_all, replaced, same_text};

verus! {

/// A CPU architecture that the bundle is built for.
#[derive(PartialEq, Eq, Structural, Clone, Copy, Debug)]
pub enum Arch {
    Amd64,
    Arm64,
    Armv7,
}

/// Why no artifact list can be made for this host.
#[derive(PartialEq, Eq, Structural, Clone, Copy, Debug)]
pub enum ResolveError {
    /// The host's architecture is not one that the bundle is built for.
    UnsupportedArchitecture,
}

/// The architecture named in a release's file names.
pub open spec fn arch_name(a: Arch) -> Seq<char> {
    match a {
        Arch::Amd64 => "amd64"@,
        Arch::Arm64 => "arm64"@,
        Arch::Armv7 => "arm-7"@,
    }
}

/// The architecture that a user may name: its release name, or `arm7` for
/// `arm-7`.
pub open spec fn arch_of_name(s: Seq<char>) -> Option<Arch> {
    if s == "amd64"@ {
        Some(Arch::Amd64)
    } else if s == "arm64"@ {
        Some(Arch::Arm64)
    } else if s == "arm-7"@ || s == "arm7"@ {
        Some(Arch::Armv7)
    } else {
        None
    }
}

/// The message given for a name that is no supported architecture.
pub open spec fn unknown_arch_message() -> Seq<char> {
    "Unknown architecture, CasaOS only supports amd64, arm64 and arm-7"@
}

/// Reading back the release name of an architecture gives that architecture.
pub proof fn lemma_parse_name(a: Arch)
    ensures
        arch_of_name(arch_name(a)) == Some(a),
{
    reveal_strlit("amd64");
    reveal_strlit("arm64");
    reveal_strlit("arm-7");
    reveal_strlit("arm7");
    assert("amd64"@ != "arm64"@) by {
        assert("amd64"@[1] != "arm64"@[1]);
    }
    assert("arm-7"@ != "amd64"@) by {
        assert("arm-7"@[1] != "amd64"@[1]);
    }
    assert("arm-7"@ != "arm64"@) by {
        assert("arm-7"@[3] != "arm64"@[3]);
    }
}

/// The bundle's architecture for a host whose processor family is `s`, as the
/// Rust toolchain names it.
pub open spec fn host_arch_of(s: Seq<char>) -> Option<Arch> {
    if s == "x86_64"@ {
        Some(Arch::Amd64)
    } else if s == "aarch64"@ {
        Some(Arch::Arm64)
    } else if s == "arm"@ {
        Some(Arch::Armv7)
    } else {
        None
    }
}

impl Arch {
    /// Reads an architecture by its release name (`amd64`, `arm64`, `arm-7`),
    /// also taking `arm7` for `arm-7`.
    pub fn parse(s: &str) -> (r: Result<Arch, String>)
        ensures
            r matches Ok(a) ==> arch_of_name(s@) == Some(a),
            r matches Err(m) ==> arch_of_name(s@) is None && m@ == unknown_arch_message(),
    {
        if same_text(s, "amd64") {
            Ok(Arch::Amd64)
        } else if same_text(s, "arm64") {
            Ok(Arch::Arm64)
        } else if same_text(s, "arm-7") || same_text(s, "arm7") {
            Ok(Arch::Armv7)
        } else {
            Err(
                String::from_str(
                    "Unknown architecture, CasaOS only supports amd64, arm64 and arm-7",
                ),
            )
        }
    }

    /// The name of the architecture in release file names.
    pub fn name(&self) -> (r: String)
        ensures
            r@ == arch_name(*self),
    {
        match self {
            Arch::Amd64 => String::from_str("amd64"),
            Arch::Arm64 => String::from_str("arm64"),
            Arch::Armv7 => String::from_str("arm-7"),
        }
    }
}

impl std::str::FromStr for Arch {
    type Err = String;

    fn from_str(s: &str) -> Result<Arch, String> {
        Arch::parse(s)
    }
}

/// The bundle's architecture for a host whose processor family is `family`,
/// as the Rust toolchain names it (`x86_64`, `aarch64`, `arm`).
pub fn host_arch(family: &str) -> (r: Result<Arch, ResolveError>)
    ensures
        r matches Ok(a) ==> host_arch_of(family@) == Some(a),
        r is Err ==> host_arch_of(family@) is None,
{
    if same_text(family, "x86_64") {
        Ok(Arch::Amd64)
    } else if same_text(family, "aarch64") {
        Ok(Arch::Arm64)
    } else if same_text(family, "arm") {
        Ok(Arch::Armv7)
    } else {
        Err(ResolveError::UnsupportedArchitecture)
    }
}

/// Where the releases are fetched from.
#[derive(PartialEq, Eq, Structural, Clone, Copy, Debug)]
pub enum Region {
    /// Mainland China, served by a mirror there.
    China,
    /// Everywhere else.
    Global,
}

/// The region of a host from the country code that a geolocation lookup
/// gave, if it gave one: `CN` is served by the mirror in China.
pub open spec fn region_of_code(code: Option<Seq<char>>) -> Region {
    match code {
        Some(c) if c == "CN"@ => Region::China,
        _ => Region::Global,
    }
}

/// The base URL of the release mirror for a region.
pub open spec fn domain_of(region: Region) -> Seq<char> {
    match region {
        Region::China => "https://casaos.oss-cn-shanghai.aliyuncs.com/IceWhaleTech/"@,
        Region::Global => "https://github.com/IceWhaleTech/"@,
    }
}

/// The region of a host from the country of a geolocation lookup.
pub fn region_of(country_code: Option<&str>) -> (r: Region)
    ensures
        country_code matches Some(c) ==> r == region_of_code(Some(c@)),
        country_code is None ==> r == region_of_code(None),
{
    match country_code {
        Some(c) => if same_text(c, "CN") {
            Region::China
        } else {
            Region::Global
        },
        None => Region::Global,
    }
}

/// The base URL of the release mirror for `region`.
pub fn download_domain(region: Region) -> (r: String)
    ensures
        r@ == domain_of(region),
{
    match region {
        Region::China => String::from_str("https://casaos.oss-cn-shanghai.aliyuncs.com/IceWhaleTech/"),
        Region::Global => String::from_str("https://github.com/IceWhaleTech/"),
    }
}

/// The placeholder for the mirror's base URL in a package template.
pub open spec fn domain_placeholder() -> Seq<char> {
    "${CASA_DOWNLOAD_DOMAIN}"@
}

/// The placeholder for the architecture in a package template.
pub open spec fn arch_placeholder() -> Seq<char> {
    "${TARGET_ARCH}"@
}

/// The URL templates of the bundle's packages.
pub open spec fn package_templates() -> Seq<Seq<char>> {
    seq![
        "${CASA_DOWNLOAD_DOMAIN}CasaOS-Gateway/releases/download/v0.4.2/linux-${TARGET_ARCH}-casaos-gateway-v0.4.2.tar.gz"@,
        "${CASA_DOWNLOAD_DOMAIN}CasaOS-MessageBus/releases/download/v0.4.2/linux-${TARGET_ARCH}-casaos-message-bus-v0.4.2.tar.gz"@,
        "${CASA_DOWNLOAD_DOMAIN}CasaOS-UserService/releases/download/v0.4.2/linux-${TARGET_ARCH}-casaos-user-service-v0.4.2.tar.gz"@,
        "${CASA_DOWNLOAD_DOMAIN}CasaOS-LocalStorage/releases/download/v0.4.3/linux-${TARGET_ARCH}-casaos-local-storage-v0.4.3.tar.gz"@,
        "${CASA_DOWNLOAD_DOMAIN}CasaOS-AppManagement/releases/download/v0.4.3/linux-${TARGET_ARCH}-casaos-app-management-v0.4.3.tar.gz"@,
        "${CASA_DOWNLOAD_DOMAIN}CasaOS/releases/download/v0.4.3-1/linux-${TARGET_ARCH}-casaos-v0.4.3-1.tar.gz"@,
        "${CASA_DOWNLOAD_DOMAIN}CasaOS-CLI/releases/download/v0.4.3-alpha2/linux-${TARGET_ARCH}-casaos-cli-v0.4.3-alpha2.tar.gz"@,
        "${CASA_DOWNLOAD_DOMAIN}CasaOS-UI/releases/download/v0.4.3/linux-all-casaos-v0.4.3.tar.gz"@,
    ]
}

/// The URL of a package from its template, for a mirror and an architecture.
pub open spec fn resolved_url(template: Seq<char>, domain: Seq<char>, arch: Arch) -> Seq<char> {
    replaced(replaced(template, domain_placeholder(), domain), arch_placeholder(), arch_name(arch))
}

fn package_template(i: usize) -> (r: &'static str)
    requires
        i < 8,
    ensures
        r@ == package_templates()[i as int],
{
    if i == 0 {
        "${CASA_DOWNLOAD_DOMAIN}CasaOS-Gateway/releases/download/v0.4.2/linux-${TARGET_ARCH}-casaos-gateway-v0.4.2.tar.gz"
    } else if i == 1 {
        "${CASA_DOWNLOAD_DOMAIN}CasaOS-MessageBus/releases/download/v0.4.2/linux-${TARGET_ARCH}-casaos-message-bus-v0.4.2.tar.gz"
    } else if i == 2 {
        "${CASA_DOWNLOAD_DOMAIN}CasaOS-UserService/releases/download/v0.4.2/linux-${TARGET_ARCH}-casaos-user-service-v0.4.2.tar.gz"
    } else if i == 3 {
        "${CASA_DOWNLOAD_DOMAIN}CasaOS-LocalStorage/releases/download/v0.4.3/linux-${TARGET_ARCH}-casaos-local-storage-v0.4.3.tar.gz"
    } else if i == 4 {
        "${CASA_DOWNLOAD_DOMAIN}CasaOS-AppManagement/releases/download/v0.4.3/linux-${TARGET_ARCH}-casaos-app-management-v0.4.3.tar.gz"
    } else if i == 5 {
        "${CASA_DOWNLOAD_DOMAIN}CasaOS/releases/download/v0.4.3-1/linux-${TARGET_ARCH}-casaos-v0.4.3-1.tar.gz"
    } else if i == 6 {
        "${CASA_DOWNLOAD_DOMAIN}CasaOS-CLI/releases/download/v0.4.3-alpha2/linux-${TARGET_ARCH}-casaos-cli-v0.4.3-alpha2.tar.gz"
    } else {
        "${CASA_DOWNLOAD_DOMAIN}CasaOS-UI/releases/download/v0.4.3/linux-all-casaos-v0.4.3.tar.gz"
    }
}

/// The URLs of the bundle's packages for a mirror and an architecture, in the
/// order of the templates.
pub fn resolve(domain: &str, arch: Arch) -> (r: Vec<String>)
    ensures
        r.deep_view().len() == package_templates().len(),
        forall|i: int|
            0 <= i < package_templates().len() ==> #[trigger] r.deep_view()[i] == resolved_url(
                package_templates()[i],
                domain@,
                arch,
            ),
{
    let arch_text = arch.name();
    let dph = "${CASA_DOWNLOAD_DOMAIN}";
    let aph = "${TARGET_ARCH}";
    proof {
        reveal_strlit("${CASA_DOWNLOAD_DOMAIN}");
        reveal_strlit("${TARGET_ARCH}");
    }
    let mut out: Vec<String> = Vec::new();
    let mut i: usize = 0;
    while i < 8
        invariant
            i <= 8,
            dph@ == domain_placeholder(),
            aph@ == arch_placeholder(),
            dph@.len() > 0,
            aph@.len() > 0,
            arch_text@ == arch_name(arch),
            out.deep_view().len() == i,
            forall|j: int|
                0 <= j < i ==> #[trigger] out.deep_view()[j] == resolved_url(
                    package_templates()[j],
                    domain@,
                    arch,
                ),
        decreases 8 - i,
    {
        let t = package_template(i);
        let with_domain = replace_all(t, dph, domain);
        let url = replace_all(with_domain.as_str(), aph, arch_text.as_str());
        let ghost before = out.deep_view();
        out.push(url);
        assert(out.deep_view() =~= before.push(url@));
        i = i + 1;
    }
    out
}

/// A package's versioned name, as `name-version`.
pub fn file_version(name: &str, version: &str) -> (r: String)
    ensures
        r@ == name@ + "-"@ + version@,
{
    let mut r = String::from_str(name);
    r.append("-");
    r.append(version);
    r
}

} // verus!

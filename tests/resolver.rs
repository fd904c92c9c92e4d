use casaos_installer::resolver::{
    download_domain, file_version, host_arch, region_of, resolve, Arch, Region, ResolveError,
};

#[test]
fn domain_follows_region() {
    assert_eq!(region_of(Some("CN")), Region::China);
    assert_eq!(region_of(Some("China")), Region::Global);
    assert_eq!(region_of(Some("US")), Region::Global);
    assert_eq!(region_of(Some("cn")), Region::Global);
    assert_eq!(region_of(None), Region::Global);
    assert_eq!(
        download_domain(Region::China),
        "https://casaos.oss-cn-shanghai.aliyuncs.com/IceWhaleTech/"
    );
    assert_eq!(download_domain(Region::Global), "https://github.com/IceWhaleTech/");
}

#[test]
fn host_arch_normalizes() {
    assert_eq!(host_arch("x86_64"), Ok(Arch::Amd64));
    assert_eq!(host_arch("aarch64"), Ok(Arch::Arm64));
    assert_eq!(host_arch("arm"), Ok(Arch::Armv7));
    assert_eq!(host_arch("armv7h"), Err(ResolveError::UnsupportedArchitecture));
    assert_eq!(host_arch("riscv64"), Err(ResolveError::UnsupportedArchitecture));
    assert_eq!(host_arch(""), Err(ResolveError::UnsupportedArchitecture));
}

#[test]
fn arch_names() {
    assert_eq!(Arch::Amd64.name(), "amd64");
    assert_eq!(Arch::Arm64.name(), "arm64");
    assert_eq!(Arch::Armv7.name(), "arm-7");
    assert_eq!("arm7".parse::<Arch>(), Ok(Arch::Armv7));
    assert_eq!(Arch::parse("amd64"), Ok(Arch::Amd64));
    assert_eq!(Arch::parse("arm-7"), Ok(Arch::Armv7));
    for a in [Arch::Amd64, Arch::Arm64, Arch::Armv7] {
        assert_eq!(Arch::parse(&a.name()), Ok(a));
    }
    assert_eq!(
        Arch::parse("x86"),
        Err("Unknown architecture, CasaOS only supports amd64, arm64 and arm-7".to_string())
    );
}

#[test]
fn resolve_fills_templates() {
    let urls = resolve("https://github.com/IceWhaleTech/", Arch::Arm64);
    assert_eq!(urls.len(), 8);
    assert_eq!(
        urls[0],
        "https://github.com/IceWhaleTech/CasaOS-Gateway/releases/download/v0.4.2/linux-arm64-casaos-gateway-v0.4.2.tar.gz"
    );
    assert_eq!(
        urls[7],
        "https://github.com/IceWhaleTech/CasaOS-UI/releases/download/v0.4.3/linux-all-casaos-v0.4.3.tar.gz"
    );
    for u in &urls {
        assert!(!u.contains("${"));
    }
}

#[test]
fn file_version_joins_with_dash() {
    assert_eq!(file_version("casaos", "v0.4.3"), "casaos-v0.4.3");
}

#[test]
fn test_get_download_domain() {
    let domain = download_domain(region_of(None));

    println!("{}", domain);
}

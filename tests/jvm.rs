use rsmc::jvm::{AllocOptions, AllocUnit};

#[test]
fn it_works() {
    let alloc = AllocOptions::range(AllocUnit::Mb, 150, 1024);

    assert_eq!(alloc.to_args(), ["-Xms150M", "-Xmx1024M"])
}

#[test]
fn single_size_and_default() {
    assert_eq!(AllocOptions::single(AllocUnit::Gb, 2).to_args(), ["-Xms2G", "-Xmx2G"]);
    assert_eq!(AllocOptions::default().to_args(), ["-Xms512M", "-Xmx2048M"]);
    assert_eq!(AllocOptions::range(AllocUnit::Kb, 0, 18446744073709551615).to_args(), ["-Xms0K", "-Xmx18446744073709551615K"]);
}

#[test]
fn alloc_unit_letters() {
    assert_eq!(AllocUnit::from_str("k"), Some(AllocUnit::Kb));
    assert_eq!(AllocUnit::from_str("M"), Some(AllocUnit::Mb));
    assert_eq!(AllocUnit::from_str("g"), Some(AllocUnit::Gb));
    assert_eq!(AllocUnit::from_str("MB"), None);
    assert_eq!(AllocUnit::from_str(""), None);
}

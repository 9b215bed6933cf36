use hostinfo::computer::module::{get_detail, get_list, Module};
use hostinfo::error::Error;

#[test]
fn test_get_detail() {
    let name = "stp";
    let module_detail = get_detail(name, "stp 16384 1 llc, 0x0000000000000000\n");
    assert!(module_detail.is_ok());
    assert_eq!(module_detail.unwrap().dependencies, ["llc"]);
}

#[test]
fn module_row_with_one_dependency() {
    let list = get_list("stp 16384 1 llc, 0x0000000000000000").unwrap();
    assert_eq!(
        list,
        vec![Module {
            name: "stp".to_string(),
            memory_bytes: 16384,
            dependencies: vec!["llc".to_string()],
        }]
    );
}

#[test]
fn module_row_with_a_dash_has_no_dependencies() {
    let list = get_list("nf_nat 49152 1 -, 0x0000000000000000\n").unwrap();
    assert_eq!(list.len(), 1);
    assert_eq!(list[0].name, "nf_nat");
    assert_eq!(list[0].memory_bytes, 49152);
    assert_eq!(list[0].dependencies, Vec::<String>::new());
    let list = get_list("nf_nat 49152 1 - Live 0x0000000000000000\n").unwrap();
    assert_eq!(list[0].dependencies, Vec::<String>::new());
}

#[test]
fn module_errors() {
    assert_eq!(
        get_list("stp x 1 llc,\n"),
        Err(Error::ParseFile("/proc/modules", "Failed to parse memory bytes as integer"))
    );
    assert_eq!(
        get_list("stp 1 x llc,\n"),
        Err(Error::ParseFile("/proc/modules", "Failed to parse count as integer"))
    );
    assert_eq!(
        get_list("stp 1 1\n"),
        Err(Error::ParseFile(
            "/proc/modules",
            "Failed to parse modules file, expect at least 4 parts"
        ))
    );
    assert_eq!(
        get_detail("llc", "stp 16384 1 llc, 0x0\n"),
        Err(Error::NotFound("llc".to_string()))
    );
}

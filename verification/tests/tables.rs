use comfy_table::{ContentArrangement, Table};
use nspawn::data_format::tables::BORDERS;
use nspawn::data_format::{
    create_images_table, create_machines_table, create_network_configs_table,
};
use nspawn::data_structs::{AddrInfo, InterfaceConfig};
use nspawn::images::{Image, Listed, Usage};
use nspawn::machines::Machine;

fn header(table: &Table) -> Vec<String> {
    match table.header() {
        Some(row) => row.cell_iter().map(|cell| cell.content()).collect(),
        None => Vec::new(),
    }
}

fn rows(table: &Table) -> Vec<Vec<String>> {
    table.row_iter().map(|row| row.cell_iter().map(|cell| cell.content()).collect()).collect()
}

fn image(name: &str, kind: &str, ro: bool, usage: Option<i64>) -> Listed {
    Listed {
        image: Image {
            name: name.to_string(),
            type_field: kind.to_string(),
            ro,
            usage: usage.map(Usage::Bytes),
            created: 0,
            modified: 0,
        },
        created_east: 0,
        modified_east: 0,
    }
}

fn machine(name: Option<&str>, class: Option<&str>) -> Machine {
    Machine {
        machine: name.map(String::from),
        class: class.map(String::from),
        service: None,
        os: Some("debian".to_string()),
        version: None,
        addresses: Some("10.0.0.2".to_string()),
    }
}

fn address(family: &str, local: &str, broadcast: Option<&str>) -> AddrInfo {
    AddrInfo {
        family: family.to_string(),
        local: local.to_string(),
        prefixlen: 24,
        scope: "global".to_string(),
        label: None,
        valid_life_time: 1,
        preferred_life_time: 1,
        metric: None,
        broadcast: broadcast.map(String::from),
        dynamic: None,
    }
}

fn interface(name: &str, mtu: i64, addresses: Vec<AddrInfo>) -> InterfaceConfig {
    InterfaceConfig {
        ifindex: 1,
        ifname: name.to_string(),
        flags: vec!["UP".to_string()],
        mtu,
        qdisc: "noqueue".to_string(),
        operstate: "UP".to_string(),
        group: "default".to_string(),
        txqlen: None,
        link_type: "ether".to_string(),
        address: "aa:bb:cc:dd:ee:ff".to_string(),
        broadcast: "ff:ff:ff:ff:ff:ff".to_string(),
        addr_info: addresses,
        master: None,
        permaddr: None,
        link_index: None,
        link_netnsid: None,
    }
}

#[test]
fn images_table_has_the_titles_for_images() {
    let table = create_images_table(Vec::new(), None);
    assert_eq!(header(&table), vec!["Name", "Type", "Read Only", "Usage", "Created", "Modified"]);
    assert_eq!(table.row_count(), 0);
}

#[test]
fn images_table_has_one_row_for_each_image_in_order() {
    let table = create_images_table(
        vec![
            image("b", "raw", false, Some(2_000_000_000)),
            image("a", "tar", true, None),
            image("c", "directory", false, Some(0)),
        ],
        None,
    );
    assert_eq!(
        rows(&table),
        vec![
            vec!["b", "raw", "false", "2.00 GB", "-", "-"],
            vec!["a", "tar", "true", "-", "-", "-"],
            vec!["c", "directory", "false", "0.00 GB", "-", "-"],
        ]
    );
}

#[test]
fn images_table_shows_times_as_dates() {
    let mut record = image("a", "raw", false, None);
    record.image.created = 1_700_000_000_000_000;
    record.image.modified = 1_600_000_000_000_000;
    record.created_east = 3600;
    record.modified_east = 7200;
    let table = create_images_table(vec![record.clone()], None);
    assert_eq!(
        rows(&table),
        vec![vec![
            "a",
            "raw",
            "false",
            "-",
            "2023-11-14 23:13:20 +01:00",
            "2020-09-13 14:26:40 +02:00"
        ]]
    );
    record.created_east = -8 * 3600;
    record.image.modified = 0;
    let table = create_images_table(vec![record], None);
    assert_eq!(
        rows(&table),
        vec![vec!["a", "raw", "false", "-", "2023-11-14 14:13:20 -08:00", "-"]]
    );
}

#[test]
fn images_table_shows_a_usage_that_comes_as_text() {
    let mut record = image("a", "raw", false, None);
    record.image.usage = Some(Usage::Text("12.5M".to_string()));
    let table = create_images_table(vec![record], None);
    assert_eq!(rows(&table), vec![vec!["a", "raw", "false", "12.5M", "-", "-"]]);
}

#[test]
fn machines_table_has_the_titles_for_machines() {
    let table = create_machines_table(Vec::new(), None);
    assert_eq!(header(&table), vec!["MACHINE", "CLASS", "SERVICE", "OS", "VERSION", "ADDRESSES"]);
    assert_eq!(table.row_count(), 0);
}

#[test]
fn machines_table_shows_the_placeholder_for_what_is_missing() {
    let table = create_machines_table(
        vec![machine(Some("web"), Some("container")), machine(None, None)],
        None,
    );
    assert_eq!(
        rows(&table),
        vec![
            vec!["web", "container", "-", "debian", "-", "10.0.0.2"],
            vec!["-", "-", "-", "debian", "-", "10.0.0.2"],
        ]
    );
}

#[test]
fn table_rows_are_as_many_as_records() {
    let machines: Vec<Machine> = (0..17).map(|_| Machine::default()).collect();
    assert_eq!(create_machines_table(machines, None).row_count(), 17);
    let images: Vec<Listed> = (0..9).map(|_| image("", "", false, None)).collect();
    assert_eq!(create_images_table(images, Some(80)).row_count(), 9);
}

#[test]
fn network_table_has_the_titles_for_addresses() {
    let table = create_network_configs_table("web", &Vec::new());
    assert_eq!(
        header(&table),
        vec![
            "Machine",
            "Iface Family",
            "Iface Name",
            "IP Address",
            "Broadcast",
            "mtu",
            "Operstate",
            "Type",
            "MAC Address"
        ]
    );
    assert_eq!(table.row_count(), 0);
}

#[test]
fn network_table_has_one_row_for_each_address() {
    let interfaces = vec![
        interface("lo", 65536, vec![address("inet", "127.0.0.1", None), address("inet6", "::1", None)]),
        interface("silent", 1500, Vec::new()),
        interface("host0", 1500, vec![address("inet", "10.0.0.2", Some("10.0.0.255"))]),
    ];
    let table = create_network_configs_table("web", &interfaces);
    assert_eq!(
        rows(&table),
        vec![
            vec!["web", "inet", "lo", "127.0.0.1", "-", "65536", "UP", "ether", "aa:bb:cc:dd:ee:ff"],
            vec!["web", "inet6", "lo", "::1", "-", "65536", "UP", "ether", "aa:bb:cc:dd:ee:ff"],
            vec!["web", "inet", "host0", "10.0.0.2", "10.0.0.255", "1500", "UP", "ether", "aa:bb:cc:dd:ee:ff"],
        ]
    );
}

#[test]
fn network_table_has_no_fixed_width() {
    let table = create_network_configs_table("web", &Vec::new());
    assert_eq!(table.width(), None);
}

#[test]
fn table_keeps_to_the_width_that_is_given() {
    assert_eq!(create_images_table(Vec::new(), Some(40)).width(), Some(40));
    assert_eq!(create_machines_table(Vec::new(), Some(120)).width(), Some(120));
    assert_eq!(create_machines_table(Vec::new(), None).width(), None);
}

#[test]
fn narrow_table_wraps_its_content() {
    let wide = machine(Some("a-machine-with-a-rather-long-name"), Some("container"));
    let table = create_machines_table(vec![wide], Some(40));
    for line in table.to_string().lines() {
        assert!(line.chars().count() <= 40, "{line}");
    }
}

#[test]
fn tables_are_drawn_with_full_ascii_borders() {
    let mut table = create_machines_table(Vec::new(), None);
    assert_eq!(BORDERS, comfy_table::presets::ASCII_FULL);
    assert_eq!(table.current_style_as_preset(), BORDERS);
}

#[test]
fn tables_arrange_their_content_dynamically() {
    let table = create_images_table(Vec::new(), None);
    assert!(matches!(table.content_arrangement(), ContentArrangement::Dynamic));
    let table = create_network_configs_table("m", &Vec::new());
    assert!(matches!(table.content_arrangement(), ContentArrangement::Dynamic));
}

#[test]
fn table_header_is_bold() {
    let mut table = create_machines_table(vec![machine(Some("web"), None)], Some(100));
    table.enforce_styling();
    let text = table.to_string();
    let first = text.lines().nth(1).unwrap().to_string();
    assert!(first.contains("\u{1b}[1m"), "{first:?}");
    let data = text.lines().nth(3).unwrap().to_string();
    assert!(!data.contains("\u{1b}["), "{data:?}");
}

#[test]
fn table_text_is_the_same_for_the_same_records_and_width() {
    let records = vec![machine(Some("web"), Some("container")), machine(None, None)];
    let once = create_machines_table(records.clone(), Some(60)).to_string();
    let again = create_machines_table(records, Some(60)).to_string();
    assert_eq!(once, again);
    let images = vec![image("a", "raw", true, Some(1)), image("b", "tar", false, None)];
    let once = create_images_table(images.clone(), Some(72)).to_string();
    let again = create_images_table(images, Some(72)).to_string();
    assert_eq!(once, again);
}

#[test]
fn table_text_of_machines() {
    let text = create_machines_table(vec![machine(Some("web"), Some("container"))], None).to_string();
    let expected = "\
+---------+-----------+---------+--------+---------+-----------+
| MACHINE | CLASS     | SERVICE | OS     | VERSION | ADDRESSES |
+==============================================================+
| web     | container | -       | debian | -       | 10.0.0.2  |
+---------+-----------+---------+--------+---------+-----------+";
    assert_eq!(text, expected);
}

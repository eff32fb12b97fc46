use crate::data_structs::{AddrInfo, InterfaceConfig, InterfacesConfigs};
use crate::images::structs::{stamp, usage_text, Listed};
use crate::machines::structs::{Machine, Machines};
use crate::text::{decimal, decimal_text};
use crate::utilities::{opt_string_eval, text_or_placeholder};
use comfy_table::Table;
use vstd::prelude::*;

verus! {

broadcast use vstd::seq::group_seq_axioms;

/// `comfy_table::Table`, taken as it is: what is known of a table is what
/// the functions below say of it.
#[verifier::external_type_specification]
#[verifier::external_body]
pub struct ExTable(Table);

/// The text of each cell of the header row that a table was given, if it
/// was given one.
pub uninterp spec fn table_header(table: Table) -> Option<Seq<Seq<char>>>;

/// The text of each cell of each data row of a table, in the order in which
/// the rows were added.
pub uninterp spec fn table_rows(table: Table) -> Seq<Seq<Seq<char>>>;

/// The width that a table was told to keep to, if it was told one.
pub uninterp spec fn table_width(table: Table) -> Option<u16>;

/// The characters that the borders of a table are drawn with, as
/// `Table::current_style_as_preset` lists them: one for each of the
/// nineteen parts of a border, and a space for a part that is not drawn.
pub uninterp spec fn table_borders(table: Table) -> Seq<char>;

/// Whether the content arrangement of a table is
/// `ContentArrangement::Dynamic`: columns are sized by their content, and
/// content is wrapped to fit the width.
pub uninterp spec fn table_wraps(table: Table) -> bool;

/// Whether a table has a header of which each cell is bold.
pub uninterp spec fn table_bold_header(table: Table) -> bool;

/// What a table holds and how it looks.
pub struct Frame {
    pub header: Option<Seq<Seq<char>>>,
    pub rows: Seq<Seq<Seq<char>>>,
    pub width: Option<u16>,
    pub borders: Seq<char>,
    pub wraps: bool,
    pub bold_header: bool,
}

/// What `table` holds and how it looks.
pub open spec fn frame(table: Table) -> Frame {
    Frame {
        header: table_header(table),
        rows: table_rows(table),
        width: table_width(table),
        borders: table_borders(table),
        wraps: table_wraps(table),
        bold_header: table_bold_header(table),
    }
}

/// The border characters of each table: comfy-table's `ASCII_FULL`.
pub const BORDERS: &'static str = "||--+==+|-+||++++++";

/// `comfy_table::Table::new`: a table without header, rows or width, with
/// the borders of `ASCII_FULL`, and with content arrangement disabled.
#[verifier::external_body]
fn new_table() -> (table: Table)
    ensures
        table_header(table) is None,
        table_rows(table) == Seq::<Seq<Seq<char>>>::empty(),
        table_width(table) is None,
        table_borders(table) == BORDERS@,
        !table_wraps(table),
        !table_bold_header(table),
{
    Table::new()
}

/// `comfy_table::Table::load_preset` with a preset of nineteen characters:
/// each part of the border gets the character at its place in the preset,
/// and nothing else changes.
#[verifier::external_body]
fn load_preset(table: &mut Table, preset: &str)
    requires
        preset@.len() == 19,
    ensures
        frame(*final(table)) == (Frame { borders: preset@, ..frame(*old(table)) }),
{
    table.load_preset(preset);
}

/// `comfy_table::Table::set_content_arrangement` with
/// `ContentArrangement::Dynamic`: that is the content arrangement of the
/// table from then on, and nothing else changes.
#[verifier::external_body]
fn arrange_dynamically(table: &mut Table)
    ensures
        frame(*final(table)) == (Frame { wraps: true, ..frame(*old(table)) }),
{
    table.set_content_arrangement(comfy_table::ContentArrangement::Dynamic);
}

/// `comfy_table::Table::set_header` with one bold cell for each title: the
/// titles become the header, and nothing else changes.
#[verifier::external_body]
fn set_bold_header(table: &mut Table, titles: Vec<String>)
    ensures
        frame(*final(table)) == (Frame {
            header: Some(titles.deep_view()),
            bold_header: true,
            ..frame(*old(table))
        }),
{
    table.set_header(
        titles.into_iter().map(
            |title| comfy_table::Cell::new(title).add_attribute(comfy_table::Attribute::Bold),
        ),
    );
}

/// `comfy_table::Table::set_width`: the table is told the width to keep
/// to, and nothing else changes.
#[verifier::external_body]
fn set_width(table: &mut Table, width: u16)
    ensures
        frame(*final(table)) == (Frame { width: Some(width), ..frame(*old(table)) }),
{
    table.set_width(width);
}

/// `comfy_table::Table::add_row`: one more row behind those that are there,
/// with one cell for each text, and nothing else changes.
#[verifier::external_body]
fn add_row(table: &mut Table, cells: Vec<String>)
    ensures
        frame(*final(table)) == (Frame {
            rows: frame(*old(table)).rows.push(cells.deep_view()),
            ..frame(*old(table))
        }),
{
    table.add_row(cells);
}

/// Whether a table looks as the tables of this library do: it is drawn with
/// the full ASCII borders, arranges its content dynamically, and has a bold
/// header.
pub open spec fn in_house_style(table: Table) -> bool {
    &&& table_borders(table) == BORDERS@
    &&& table_wraps(table)
    &&& table_bold_header(table)
}

/// The titles of the columns of a table of images.
pub open spec fn image_titles() -> Seq<Seq<char>> {
    seq!["Name"@, "Type"@, "Read Only"@, "Usage"@, "Created"@, "Modified"@]
}

/// The titles of the columns of a table of machines.
pub open spec fn machine_titles() -> Seq<Seq<char>> {
    seq!["MACHINE"@, "CLASS"@, "SERVICE"@, "OS"@, "VERSION"@, "ADDRESSES"@]
}

/// The titles of the columns of a table of addresses.
pub open spec fn network_titles() -> Seq<Seq<char>> {
    seq![
        "Machine"@,
        "Iface Family"@,
        "Iface Name"@,
        "IP Address"@,
        "Broadcast"@,
        "mtu"@,
        "Operstate"@,
        "Type"@,
        "MAC Address"@,
    ]
}

/// `true` or `false`.
pub open spec fn bool_text(value: bool) -> Seq<char> {
    if value {
        "true"@
    } else {
        "false"@
    }
}

/// The row of an image: the name, the type, the read-only flag and the
/// usage, then the times of creation and of the last change, each as the
/// date and time in the time zone that is given for it, or as the
/// placeholder where it is zero.
pub open spec fn image_row(listed: Listed) -> Seq<Seq<char>> {
    seq![
        listed.image.name@,
        listed.image.type_field@,
        bool_text(listed.image.ro),
        usage_text(listed.image.usage),
        stamp(listed.image.created, listed.created_east as int),
        stamp(listed.image.modified, listed.modified_east as int),
    ]
}

/// The test that tells the row of an image.
pub open spec fn row_of_image() -> spec_fn(Listed) -> Seq<Seq<char>> {
    |listed: Listed| image_row(listed)
}

/// Whether each of the images can be shown.
pub open spec fn all_showable(images: Seq<Listed>) -> bool {
    forall|i: int| 0 <= i < images.len() ==> (#[trigger] images[i]).showable()
}

/// The row of a machine: the placeholder for each value that it lacks.
pub open spec fn machine_row(machine: Machine) -> Seq<Seq<char>> {
    seq![
        text_or_placeholder(machine.machine),
        text_or_placeholder(machine.class),
        text_or_placeholder(machine.service),
        text_or_placeholder(machine.os),
        text_or_placeholder(machine.version),
        text_or_placeholder(machine.addresses),
    ]
}

/// The row of one address of one interface of a machine.
pub open spec fn address_row(
    machine: Seq<char>,
    interface: InterfaceConfig,
    address: AddrInfo,
) -> Seq<Seq<char>> {
    seq![
        machine,
        address.family@,
        interface.ifname@,
        address.local@,
        text_or_placeholder(address.broadcast),
        decimal(interface.mtu as int),
        interface.operstate@,
        interface.link_type@,
        interface.address@,
    ]
}

/// The rows of one interface: one for each of its addresses.
pub open spec fn interface_rows(machine: Seq<char>, interface: InterfaceConfig) -> Seq<
    Seq<Seq<char>>,
> {
    interface.addr_info@.map_values(|address: AddrInfo| address_row(machine, interface, address))
}

/// The rows of the interfaces of a machine: those of the first interface,
/// then those of the second, and so on.
pub open spec fn network_rows(machine: Seq<char>, interfaces: Seq<InterfaceConfig>) -> Seq<
    Seq<Seq<char>>,
>
    decreases interfaces.len(),
{
    if interfaces.len() == 0 {
        Seq::empty()
    } else {
        network_rows(machine, interfaces.drop_last()) + interface_rows(machine, interfaces.last())
    }
}

/// Whether `table` is the table of `images`: one row for each, in their
/// order, under the titles for images, and kept to `width` where there is
/// one.
pub open spec fn is_images_table(table: Table, images: Seq<Listed>, width: Option<u16>) -> bool {
    &&& in_house_style(table)
    &&& table_header(table) == Some(image_titles())
    &&& table_width(table) == width
    &&& table_rows(table) == images.map_values(row_of_image())
}

/// The test that tells the row of a machine.
pub open spec fn row_of_machine() -> spec_fn(Machine) -> Seq<Seq<char>> {
    |machine: Machine| machine_row(machine)
}

/// Whether `table` is the table of `machines`: one row for each, in their
/// order, under the titles for machines, and kept to `width` where there is
/// one.
pub open spec fn is_machines_table(
    table: Table,
    machines: Seq<Machine>,
    width: Option<u16>,
) -> bool {
    &&& in_house_style(table)
    &&& table_header(table) == Some(machine_titles())
    &&& table_width(table) == width
    &&& table_rows(table) == machines.map_values(row_of_machine())
}

/// Whether `table` is the table of the addresses of `machine`: one row for
/// each address of each interface, under the titles for addresses, and of
/// no fixed width.
pub open spec fn is_network_table(
    table: Table,
    machine: Seq<char>,
    interfaces: Seq<InterfaceConfig>,
) -> bool {
    &&& in_house_style(table)
    &&& table_header(table) == Some(network_titles())
    &&& table_width(table) is None
    &&& table_rows(table) == network_rows(machine, interfaces)
}

/// An empty table in the look of this library, with the given titles.
fn titled_table(titles: Vec<String>) -> (table: Table)
    ensures
        in_house_style(table),
        table_header(table) == Some(titles.deep_view()),
        table_rows(table) == Seq::<Seq<Seq<char>>>::empty(),
        table_width(table) is None,
{
    let mut table = new_table();
    proof {
        reveal_strlit("||--+==+|-+||++++++");
    }
    load_preset(&mut table, BORDERS);
    arrange_dynamically(&mut table);
    set_bold_header(&mut table, titles);
    table
}

/// The table of `images`: one row for each, in their order, under the
/// titles for images, and kept to `width` where one is given.
pub fn create_images_table(images: Vec<Listed>, width: Option<u16>) -> (table: Table)
    requires
        all_showable(images@),
    ensures
        is_images_table(table, images@, width),
{
    let mut titles: Vec<String> = Vec::new();
    titles.push("Name".to_string());
    titles.push("Type".to_string());
    titles.push("Read Only".to_string());
    titles.push("Usage".to_string());
    titles.push("Created".to_string());
    titles.push("Modified".to_string());
    let mut table = titled_table(titles);
    if let Some(width) = width {
        set_width(&mut table, width);
    }
    let mut i: usize = 0;
    while i < images.len()
        invariant
            0 <= i <= images.len(),
            all_showable(images@),
            in_house_style(table),
            table_header(table) == Some(image_titles()),
            table_width(table) == width,
            table_rows(table) == images@.take(i as int).map_values(row_of_image()),
        decreases images.len() - i,
    {
        let listed = &images[i];
        let mut image = listed.image.duplicate();
        let mut cells: Vec<String> = Vec::new();
        cells.push(image.name.clone());
        cells.push(image.type_field.clone());
        if image.ro {
            cells.push("true".to_string());
        } else {
            cells.push("false".to_string());
        }
        cells.push(image.get_usage_in_gb());
        cells.push(image.created_to_timestamp(listed.created_east));
        cells.push(image.modified_to_timestamp(listed.modified_east));
        proof {
            assert(cells.deep_view() =~= image_row(images@[i as int]));
            assert(images@.take(i + 1) =~= images@.take(i as int).push(images@[i as int]));
        }
        add_row(&mut table, cells);
        i += 1;
    }
    proof {
        assert(images@.take(images.len() as int) =~= images@);
    }
    table
}

/// The table of `machines`: one row for each, in their order, under the
/// titles for machines, and kept to `width` where one is given.
pub fn create_machines_table(machines: Machines, width: Option<u16>) -> (table: Table)
    ensures
        is_machines_table(table, machines@, width),
{
    let mut titles: Vec<String> = Vec::new();
    titles.push("MACHINE".to_string());
    titles.push("CLASS".to_string());
    titles.push("SERVICE".to_string());
    titles.push("OS".to_string());
    titles.push("VERSION".to_string());
    titles.push("ADDRESSES".to_string());
    let mut table = titled_table(titles);
    if let Some(width) = width {
        set_width(&mut table, width);
    }
    let mut i: usize = 0;
    while i < machines.len()
        invariant
            0 <= i <= machines.len(),
            in_house_style(table),
            table_header(table) == Some(machine_titles()),
            table_width(table) == width,
            table_rows(table) == machines@.take(i as int).map_values(row_of_machine()),
        decreases machines.len() - i,
    {
        let machine = &machines[i];
        let mut cells: Vec<String> = Vec::new();
        cells.push(opt_string_eval(&machine.machine));
        cells.push(opt_string_eval(&machine.class));
        cells.push(opt_string_eval(&machine.service));
        cells.push(opt_string_eval(&machine.os));
        cells.push(opt_string_eval(&machine.version));
        cells.push(opt_string_eval(&machine.addresses));
        proof {
            assert(cells.deep_view() =~= machine_row(machines@[i as int]));
        }
        add_row(&mut table, cells);
        i += 1;
    }
    proof {
        assert(machines@.take(machines.len() as int) =~= machines@);
    }
    table
}

/// The table of the addresses of the machine `machine`: one row for each
/// address of each interface, under the titles for addresses.
pub fn create_network_configs_table(machine: &str, networks_config: &InterfacesConfigs) -> (table:
    Table)
    ensures
        is_network_table(table, machine@, networks_config@),
{
    let mut titles: Vec<String> = Vec::new();
    titles.push("Machine".to_string());
    titles.push("Iface Family".to_string());
    titles.push("Iface Name".to_string());
    titles.push("IP Address".to_string());
    titles.push("Broadcast".to_string());
    titles.push("mtu".to_string());
    titles.push("Operstate".to_string());
    titles.push("Type".to_string());
    titles.push("MAC Address".to_string());
    let mut table = titled_table(titles);
    let mut i: usize = 0;
    while i < networks_config.len()
        invariant
            0 <= i <= networks_config.len(),
            in_house_style(table),
            table_header(table) == Some(network_titles()),
            table_width(table) is None,
            table_rows(table) == network_rows(machine@, networks_config@.take(i as int)),
        decreases networks_config.len() - i,
    {
        let network = &networks_config[i];
        let ghost before = table_rows(table);
        let mut k: usize = 0;
        while k < network.addr_info.len()
            invariant
                0 <= k <= network.addr_info.len(),
                in_house_style(table),
                table_header(table) == Some(network_titles()),
                table_width(table) is None,
                table_rows(table) == before + interface_rows(machine@, *network).take(k as int),
            decreases network.addr_info.len() - k,
        {
            let address = &network.addr_info[k];
            let mut cells: Vec<String> = Vec::new();
            cells.push(machine.to_string());
            cells.push(address.family.clone());
            cells.push(network.ifname.clone());
            cells.push(address.local.clone());
            cells.push(opt_string_eval(&address.broadcast));
            cells.push(decimal_text(network.mtu));
            cells.push(network.operstate.clone());
            cells.push(network.link_type.clone());
            cells.push(network.address.clone());
            proof {
                assert(cells.deep_view() =~= address_row(machine@, *network, *address));
            }
            add_row(&mut table, cells);
            k += 1;
        }
        proof {
            let next = networks_config@.take(i + 1);
            assert(next.drop_last() =~= networks_config@.take(i as int));
        }
        i += 1;
    }
    proof {
        assert(networks_config@.take(networks_config.len() as int) =~= networks_config@);
    }
    table
}

} // verus!

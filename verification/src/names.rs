//! Interface names: which are acceptable to the kernel, and how one is looked up
//! among the interfaces that exist.

use vstd::prelude::*;

use crate::errors::{Error, ErrorView};
use crate::interface::{InterfaceView, WirelessInterface};
use crate::text::{chars_of, is_white_space, join, same_text};

verus! {

/// Longest name the kernel accepts for a network device, in bytes.
pub const MAX_IFACE_NAME_LEN: usize = 15;

/// Whether a character may not stand in an interface name.
pub open spec fn forbidden_in_name(c: char) -> bool {
    c == '/' || c == ':' || crate::text::white_space(c)
}

/// What is wrong with an interface name, if anything.
pub open spec fn name_fault(name: Seq<char>) -> Option<Seq<char>> {
    if name.len() == 0 {
        Some("must not be empty"@)
    } else if vstd::utf8::encode_utf8(name).len() > MAX_IFACE_NAME_LEN {
        Some("must be at most 15 characters"@)
    } else if name == "."@ || name == ".."@ {
        Some("must not be '.' or '..'"@)
    } else if exists|i: int| 0 <= i < name.len() && forbidden_in_name(#[trigger] name[i]) {
        Some("must not contain whitespace, '/', or ':'"@)
    } else {
        None
    }
}

/// The verdict on an interface name.
pub open spec fn name_verdict(name: Seq<char>) -> Result<(), ErrorView> {
    match name_fault(name) {
        Some(reason) => Err(ErrorView::InvalidInterfaceName { name, reason }),
        None => Ok(()),
    }
}

/// Whether a name holds a character that may not stand in one.
fn has_forbidden_char(name: &str) -> (r: bool)
    ensures
        r == exists|i: int| 0 <= i < name@.len() && forbidden_in_name(#[trigger] name@[i]),
{
    let chars = chars_of(name);
    let mut i: usize = 0;
    while i < chars.len()
        invariant
            i <= chars.len(),
            chars@ == name@,
            forall|j: int| 0 <= j < i ==> !forbidden_in_name(#[trigger] name@[j]),
        decreases chars.len() - i,
    {
        let c = chars[i];
        if c == '/' || c == ':' || is_white_space(c) {
            assert(forbidden_in_name(name@[i as int]));
            return true;
        }
        i += 1;
    }
    false
}

/// Validate a candidate interface name against the kernel's constraints for a
/// network device name.
pub fn validate_iface_name(name: &str) -> (r: Result<(), Error>)
    ensures
        crate::errors::unit_result(r) == name_verdict(name@),
{
    let reason: Option<&'static str> = if name.is_empty() {
        Some("must not be empty")
    } else if name.as_bytes().len() > MAX_IFACE_NAME_LEN {
        Some("must be at most 15 characters")
    } else if same_text(name, ".") || same_text(name, "..") {
        Some("must not be '.' or '..'")
    } else if has_forbidden_char(name) {
        Some("must not contain whitespace, '/', or ':'")
    } else {
        None
    };
    match reason {
        Some(reason) => Err(Error::InvalidInterfaceName { name: name.to_owned(), reason }),
        None => Ok(()),
    }
}

/// The names of the interfaces, in order.
pub open spec fn names_of(interfaces: Seq<InterfaceView>) -> Seq<Seq<char>> {
    interfaces.map_values(|i: InterfaceView| i.name)
}

/// The first interface of the given name, or an error that lists the names there
/// are.
pub open spec fn selected(interfaces: Seq<InterfaceView>, name: Seq<char>) -> Result<
    InterfaceView,
    ErrorView,
> {
    if exists|i: int| #[trigger] first_named(interfaces, name, i) {
        Ok(interfaces[choose|i: int| #[trigger] first_named(interfaces, name, i)])
    } else {
        Err(
            ErrorView::NotFound {
                name,
                available: crate::text::joined(names_of(interfaces), ", "@),
            },
        )
    }
}

/// Whether `i` is the first position that holds the name.
pub open spec fn first_named(interfaces: Seq<InterfaceView>, name: Seq<char>, i: int) -> bool {
    &&& 0 <= i < interfaces.len()
    &&& interfaces[i].name == name
    &&& forall|j: int| 0 <= j < i ==> (#[trigger] interfaces[j]).name != name
}

/// Like [`selected`], with a system that has no interface at all told apart.
pub open spec fn found(interfaces: Seq<InterfaceView>, name: Seq<char>) -> Result<
    InterfaceView,
    ErrorView,
> {
    if interfaces.len() == 0 {
        Err(ErrorView::NoInterfaces)
    } else {
        selected(interfaces, name)
    }
}

/// The contents of a result that is an interface or an [`Error`].
pub open spec fn interface_result(r: Result<WirelessInterface, Error>) -> Result<
    InterfaceView,
    ErrorView,
> {
    match r {
        Ok(i) => Ok(i@),
        Err(e) => Err(e@),
    }
}

/// The names of the interfaces, separated by commas.
fn available_names(interfaces: &Vec<WirelessInterface>) -> (r: String)
    ensures
        r@ == crate::text::joined(names_of(crate::interface::interface_views(interfaces@)), ", "@),
{
    let mut names: Vec<String> = Vec::new();
    let ghost all = names_of(crate::interface::interface_views(interfaces@));
    let mut i: usize = 0;
    while i < interfaces.len()
        invariant
            i <= interfaces.len(),
            all == names_of(crate::interface::interface_views(interfaces@)),
            crate::text::texts(names@) == all.take(i as int),
        decreases interfaces.len() - i,
    {
        let ghost before = names@;
        names.push(interfaces[i].name.clone());
        assert(crate::text::texts(names@) =~= crate::text::texts(before).push(all[i as int]));
        assert(crate::text::texts(names@) =~= all.take(i + 1));
        i += 1;
    }
    assert(crate::text::texts(names@) =~= all);
    join(&names, ", ")
}

/// Pick the first interface of the given name out of a list.
pub fn select_named(interfaces: Vec<WirelessInterface>, name: &str) -> (r: Result<
    WirelessInterface,
    Error,
>)
    ensures
        interface_result(r) == selected(crate::interface::interface_views(interfaces@), name@),
{
    let ghost views = crate::interface::interface_views(interfaces@);
    let mut i: usize = 0;
    while i < interfaces.len()
        invariant
            i <= interfaces.len(),
            views == crate::interface::interface_views(interfaces@),
            forall|j: int| 0 <= j < i ==> (#[trigger] views[j]).name != name@,
        decreases interfaces.len() - i,
    {
        assert(views[i as int] == interfaces@[i as int]@);
        if same_text(interfaces[i].name.as_str(), name) {
            assert(first_named(views, name@, i as int));
            return Ok(interfaces[i].clone());
        }
        i += 1;
    }
    Err(Error::NotFound { name: name.to_owned(), available: available_names(&interfaces) })
}

/// Resolve a name to a detected interface, or an error listing those that do
/// exist. A system without any interface is reported as such.
pub fn find_named(interfaces: Vec<WirelessInterface>, name: &str) -> (r: Result<
    WirelessInterface,
    Error,
>)
    ensures
        interface_result(r) == found(crate::interface::interface_views(interfaces@), name@),
{
    if interfaces.len() == 0 {
        Err(Error::NoInterfaces)
    } else {
        select_named(interfaces, name)
    }
}

/// A lookup that succeeds yields an interface of the list that carries the name;
/// it fails exactly when none does.
pub proof fn lookup_yields_the_name(interfaces: Seq<InterfaceView>, name: Seq<char>)
    ensures
        match found(interfaces, name) {
            Ok(i) => interfaces.contains(i) && i.name == name,
            Err(e) => forall|j: int|
                0 <= j < interfaces.len() ==> (#[trigger] interfaces[j]).name != name,
        },
{
    if found(interfaces, name) is Err && exists|j: int|
        0 <= j < interfaces.len() && (#[trigger] interfaces[j]).name == name {
        let j = choose|j: int| 0 <= j < interfaces.len() && (#[trigger] interfaces[j]).name == name;
        first_exists(interfaces, name, j);
    }
}

/// Where a name stands at all, it has a first position.
proof fn first_exists(interfaces: Seq<InterfaceView>, name: Seq<char>, j: int)
    requires
        0 <= j < interfaces.len(),
        interfaces[j].name == name,
    ensures
        exists|i: int| #[trigger] first_named(interfaces, name, i),
    decreases j,
{
    if exists|k: int| 0 <= k < j && (#[trigger] interfaces[k]).name == name {
        let k = choose|k: int| 0 <= k < j && (#[trigger] interfaces[k]).name == name;
        first_exists(interfaces, name, k);
    } else {
        assert(first_named(interfaces, name, j));
    }
}

} // verus!

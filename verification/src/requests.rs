//! The netlink messages that control requests are sent as.
//!
//! The attributes and messages themselves are built by the netlink crates; what
//! this module decides is which ones make up a request.

use vstd::prelude::*;

use rtnetlink::packet_route::link::LinkMessage;
use wl_nl80211::Nl80211Attr;

use crate::interface::ChannelWidth;

verus! {

/// nl80211 channel width: 20 MHz without HT.
pub const WIDTH_20_NOHT: u32 = 0;

/// nl80211 channel width: 40 MHz.
pub const WIDTH_40: u32 = 2;

/// An nl80211 attribute, of the `wl-nl80211` crate.
#[verifier::external_type_specification]
#[verifier::external_body]
pub struct ExNl80211Attr(wl_nl80211::Nl80211Attr);

/// An rtnetlink link message, of the `rtnetlink` crate.
#[verifier::external_type_specification]
#[verifier::external_body]
pub struct ExLinkMessage(rtnetlink::packet_route::link::LinkMessage);

/// The attribute `Nl80211Attr::IfIndex(index)`.
pub uninterp spec fn if_index_attr(index: u32) -> Nl80211Attr;

/// The attribute `Nl80211Attr::IfType` of the interface type numbered `iftype`.
pub uninterp spec fn if_type_attr(iftype: u32) -> Nl80211Attr;

/// The attribute `Nl80211Attr::WiphyFreq(freq_mhz)`.
pub uninterp spec fn wiphy_freq_attr(freq_mhz: u32) -> Nl80211Attr;

/// The attribute `Nl80211Attr::ChannelWidth` of the width numbered `width`.
pub uninterp spec fn channel_width_attr(width: u32) -> Nl80211Attr;

/// The attribute `Nl80211Attr::CenterFreq1(center_mhz)`.
pub uninterp spec fn center_freq_attr(center_mhz: u32) -> Nl80211Attr;

/// The message that brings the link with the index up.
pub uninterp spec fn link_up_message(index: u32) -> LinkMessage;

/// The message that brings the link with the index down.
pub uninterp spec fn link_down_message(index: u32) -> LinkMessage;

/// The message that gives the link with the index a name.
pub uninterp spec fn link_name_message(index: u32, name: Seq<char>) -> LinkMessage;

/// Calls the constructor `Nl80211Attr::IfIndex`: the attribute that holds the
/// index.
#[verifier::external_body]
fn if_index(index: u32) -> (a: Nl80211Attr)
    ensures
        a == if_index_attr(index),
{
    Nl80211Attr::IfIndex(index)
}

/// Calls the constructor `Nl80211Attr::IfType` on the type that
/// `Nl80211InterfaceType::from` gives for the number: the attribute depends on the
/// number alone.
#[verifier::external_body]
fn if_type(iftype: u32) -> (a: Nl80211Attr)
    ensures
        a == if_type_attr(iftype),
{
    Nl80211Attr::IfType(wl_nl80211::Nl80211InterfaceType::from(iftype))
}

/// Calls `Nl80211Channel::new`, `frequency`, `channel_width` and `build`: one
/// attribute for each, in the order of their nl80211 numbers (interface index,
/// frequency, channel width). The width is the one that
/// `Nl80211ChannelWidth::from` gives for the number.
#[verifier::external_body]
fn narrow_channel(index: u32, freq_mhz: u32, width: u32) -> (attrs: Vec<Nl80211Attr>)
    ensures
        attrs@ == seq![
            if_index_attr(index),
            wiphy_freq_attr(freq_mhz),
            channel_width_attr(width),
        ],
{
    wl_nl80211::Nl80211Channel::new(index)
        .frequency(freq_mhz)
        .channel_width(wl_nl80211::Nl80211ChannelWidth::from(width))
        .build()
}

/// Calls `Nl80211Channel::new`, `frequency`, `channel_width`, `center_frequency`
/// and `build`: one attribute for each, in the order of their nl80211 numbers
/// (interface index, frequency, channel width, segment center). The width is the
/// one that `Nl80211ChannelWidth::from` gives for the number.
#[verifier::external_body]
fn wide_channel(index: u32, freq_mhz: u32, width: u32, center_mhz: u32) -> (attrs: Vec<
    Nl80211Attr,
>)
    ensures
        attrs@ == seq![
            if_index_attr(index),
            wiphy_freq_attr(freq_mhz),
            channel_width_attr(width),
            center_freq_attr(center_mhz),
        ],
{
    wl_nl80211::Nl80211Channel::new(index)
        .frequency(freq_mhz)
        .channel_width(wl_nl80211::Nl80211ChannelWidth::from(width))
        .center_frequency(center_mhz)
        .build()
}

/// Calls `LinkUnspec::new_with_index`, `up` and `build`. The message depends on
/// the index alone; its header and attributes are left to the crate.
#[verifier::external_body]
fn link_up(index: u32) -> (m: LinkMessage)
    ensures
        m == link_up_message(index),
{
    rtnetlink::LinkUnspec::new_with_index(index).up().build()
}

/// Calls `LinkUnspec::new_with_index`, `down` and `build`. The message depends on
/// the index alone; its header and attributes are left to the crate.
#[verifier::external_body]
fn link_down(index: u32) -> (m: LinkMessage)
    ensures
        m == link_down_message(index),
{
    rtnetlink::LinkUnspec::new_with_index(index).down().build()
}

/// Calls `LinkUnspec::new_with_index`, `name` and `build`. The message depends on
/// the index and the name alone; its header and attributes are left to the crate.
#[verifier::external_body]
fn link_name(index: u32, name: String) -> (m: LinkMessage)
    ensures
        m == link_name_message(index, name@),
{
    rtnetlink::LinkUnspec::new_with_index(index).name(name).build()
}

/// The attributes that ask for one interface by its index. A request with any
/// attribute at all is a single get rather than a dump.
pub fn interface_request(index: u32) -> (attrs: Vec<Nl80211Attr>)
    ensures
        attrs@ == seq![if_index_attr(index)],
{
    let attrs: Vec<Nl80211Attr> = vec![if_index(index)];
    assert(attrs@ =~= seq![if_index_attr(index)]);
    attrs
}

/// The attributes that set the interface type numbered `iftype`.
pub fn iftype_request(index: u32, iftype: u32) -> (attrs: Vec<Nl80211Attr>)
    ensures
        attrs@ == seq![if_index_attr(index), if_type_attr(iftype)],
{
    let attrs: Vec<Nl80211Attr> = vec![if_index(index), if_type(iftype)];
    assert(attrs@ =~= seq![if_index_attr(index), if_type_attr(iftype)]);
    attrs
}

/// Whether the segment center of a request is a frequency at all.
pub fn center_is_valid(freq_mhz: u32, width: ChannelWidth) -> (r: bool)
    ensures
        r == crate::channel::center_fits(freq_mhz, width),
        r == match width {
            ChannelWidth::Mhz20 => true,
            ChannelWidth::Mhz40Above => freq_mhz + 10 <= u32::MAX,
            ChannelWidth::Mhz40Below => freq_mhz - 10 >= 0,
        },
{
    match width {
        ChannelWidth::Mhz20 => true,
        ChannelWidth::Mhz40Above => freq_mhz <= u32::MAX - 10,
        ChannelWidth::Mhz40Below => freq_mhz >= 10,
    }
}

/// The attributes that tune an interface. For 40 MHz the secondary channel is
/// expressed by the center of the segment.
pub fn channel_request(index: u32, freq_mhz: u32, width: ChannelWidth) -> (attrs: Vec<Nl80211Attr>)
    requires
        crate::channel::center_fits(freq_mhz, width),
    ensures
        attrs@ == match crate::channel::segment_center(freq_mhz, width) {
            Some(center_mhz) => seq![
                if_index_attr(index),
                wiphy_freq_attr(freq_mhz),
                channel_width_attr(WIDTH_40),
                center_freq_attr(center_mhz),
            ],
            None => seq![
                if_index_attr(index),
                wiphy_freq_attr(freq_mhz),
                channel_width_attr(WIDTH_20_NOHT),
            ],
        },
        width == ChannelWidth::Mhz20 ==> attrs@ == seq![
            if_index_attr(index),
            wiphy_freq_attr(freq_mhz),
            channel_width_attr(0),
        ],
        width == ChannelWidth::Mhz40Above ==> attrs@ == seq![
            if_index_attr(index),
            wiphy_freq_attr(freq_mhz),
            channel_width_attr(2),
            center_freq_attr((freq_mhz + 10) as u32),
        ],
        width == ChannelWidth::Mhz40Below ==> attrs@ == seq![
            if_index_attr(index),
            wiphy_freq_attr(freq_mhz),
            channel_width_attr(2),
            center_freq_attr((freq_mhz - 10) as u32),
        ],
{
    match width {
        ChannelWidth::Mhz20 => narrow_channel(index, freq_mhz, WIDTH_20_NOHT),
        ChannelWidth::Mhz40Above => wide_channel(index, freq_mhz, WIDTH_40, freq_mhz + 10),
        ChannelWidth::Mhz40Below => wide_channel(index, freq_mhz, WIDTH_40, freq_mhz - 10),
    }
}

/// The message that brings a link up or down.
pub fn link_request(index: u32, up: bool) -> (m: LinkMessage)
    ensures
        m == if up {
            link_up_message(index)
        } else {
            link_down_message(index)
        },
{
    if up {
        link_up(index)
    } else {
        link_down(index)
    }
}

/// The message that renames a link.
pub fn name_request(index: u32, name: &str) -> (m: LinkMessage)
    ensures
        m == link_name_message(index, name@),
{
    link_name(index, name.to_owned())
}

} // verus!

//! Icons: the one a new collection gets, where an icon's asset lies, and the
//! icon that stands for a request.

use vstd::prelude::*;
use crate::codes::{HTTPMethods, ProtocolTypes};
use crate::search::{contains_exactly, contains_text};

verus! {

/// The name of the icon used where the icon pack offers none.
pub open spec fn default_icon() -> Seq<char> {
    "1F4A6.svg"@
}

/// Whether `icon` may be given to a new collection when the icon pack holds
/// `pack`: any icon of the pack, or the default icon where the pack is
/// empty.
pub open spec fn icon_from_pack(pack: Seq<String>, icon: Seq<char>) -> bool {
    if pack.len() == 0 {
        icon == default_icon()
    } else {
        exists|i: int| 0 <= i < pack.len() && (#[trigger] pack[i])@ == icon
    }
}

/// Calls `rand::seq::IndexedRandom::choose` on the names, with the generator
/// of `rand::rng`, and copies the name that was chosen.
///
/// Trusted: nothing is chosen exactly from an empty list, and what is chosen
/// is one of the names. Which one is left open.
#[verifier::external_body]
pub(crate) fn choose_name(names: &Vec<String>) -> (chosen: Option<String>)
    ensures
        chosen is None <==> names@.len() == 0,
        chosen matches Some(name) ==> exists|i: int|
            0 <= i < names@.len() && (#[trigger] names@[i])@ == name@,
{
    rand::seq::IndexedRandom::choose(names.as_slice(), &mut rand::rng()).cloned()
}

/// The icon for a new collection, given what was chosen from the pack.
pub fn icon_or_default(chosen: Option<String>) -> (icon: String)
    ensures
        icon@ == match chosen {
            Some(name) => name@,
            None => default_icon(),
        },
{
    match chosen {
        Some(name) => name,
        None => "1F4A6.svg".to_owned(),
    }
}

/// Picks the icon of a new collection at random from the icon pack, and the
/// default icon where the pack is empty.
pub fn pick_icon(icons: &Vec<String>) -> (icon: String)
    ensures
        icon_from_pack(icons@, icon@),
{
    let chosen = choose_name(icons);
    icon_or_default(chosen)
}

/// The directory of the icon pack, with the separator that ends it.
pub open spec fn icon_pack_dir() -> Seq<char> {
    "ui/icons_pack/"@
}

/// Where the asset of the icon `icon` lies.
pub fn icon_path(icon: &str) -> (path: String)
    ensures
        path@ == icon_pack_dir() + icon@,
{
    let mut path = "ui/icons_pack/".to_owned();
    path.append(icon);
    path
}

/// The icon that stands for a request with these codes. A protocol that is
/// no declared code counts as HTTP here, and a method that is none as GET:
/// the icon is for display only, and nothing is stored.
pub open spec fn request_icon(protocol: Seq<char>, http_method: Seq<char>) -> Seq<char> {
    let parsed_protocol = match ProtocolTypes::parse(protocol) {
        Some(p) => p,
        None => ProtocolTypes::Http,
    };
    let parsed_method = match HTTPMethods::parse(http_method) {
        Some(m) => m,
        None => HTTPMethods::Get,
    };
    if parsed_protocol == ProtocolTypes::Http {
        match parsed_method {
            HTTPMethods::Post => "resources/icons/post.png"@,
            HTTPMethods::Get => "resources/icons/get.png"@,
            HTTPMethods::Put => "resources/icons/put.png"@,
            HTTPMethods::Delete => "resources/icons/delete.png"@,
        }
    } else {
        "resources/icons/get.png"@
    }
}

/// Computes the icon that stands for a request.
pub fn compute_request_icon(protocol: &String, http_method: &String) -> (icon: String)
    ensures
        icon@ == request_icon(protocol@, http_method@),
{
    let parsed_protocol = match ProtocolTypes::from_string(protocol.as_str()) {
        Some(data) => data,
        None => ProtocolTypes::Http,
    };
    if parsed_protocol == ProtocolTypes::Http {
        let parsed_http_method = match HTTPMethods::from_string(http_method.as_str()) {
            Some(data) => data,
            None => HTTPMethods::Get,
        };
        match parsed_http_method {
            HTTPMethods::Post => "resources/icons/post.png".to_owned(),
            HTTPMethods::Get => "resources/icons/get.png".to_owned(),
            HTTPMethods::Put => "resources/icons/put.png".to_owned(),
            HTTPMethods::Delete => "resources/icons/delete.png".to_owned(),
        }
    } else {
        "resources/icons/get.png".to_owned()
    }
}

/// The places from 0 up to `len`, in their order.
pub open spec fn places(len: nat) -> Seq<int> {
    Seq::new(len, |i: int| i)
}

/// The places of the paths that hold `search_string`.
pub open spec fn holds_search_string(paths: Seq<String>, search_string: Seq<char>) -> spec_fn(
    int,
) -> bool {
    |i: int| contains_exactly(paths[i]@, search_string)
}

/// The places as numbers to count with.
pub open spec fn as_places(indices: Seq<usize>) -> Seq<int> {
    indices.map_values(|i: usize| i as int)
}

/// Finds the icons whose path holds `search_string`, letter for letter, and
/// returns their places in `paths`, in rising order.
pub fn find_matching_icons(search_string: &str, paths: &Vec<String>) -> (found: Vec<usize>)
    ensures
        as_places(found@) == places(paths@.len()).filter(
            holds_search_string(paths@, search_string@),
        ),
{
    let ghost wanted = holds_search_string(paths@, search_string@);
    let mut found: Vec<usize> = Vec::new();
    let mut i: usize = 0;
    proof {
        reveal(Seq::filter);
        assert(places(0).filter(wanted) =~= Seq::<int>::empty());
        assert(as_places(found@) =~= Seq::<int>::empty());
    }
    while i < paths.len()
        invariant
            i <= paths.len(),
            wanted == holds_search_string(paths@, search_string@),
            as_places(found@) == places(i as nat).filter(wanted),
        decreases paths.len() - i,
    {
        proof {
            assert(places((i + 1) as nat) =~= places(i as nat).push(i as int));
            places(i as nat).lemma_filter_push(i as int, wanted);
        }
        if contains_text(paths[i].as_str(), search_string) {
            let ghost before = found@;
            found.push(i);
            assert(as_places(found@) =~= as_places(before).push(i as int));
        }
        i += 1;
    }
    found
}

} // verus!

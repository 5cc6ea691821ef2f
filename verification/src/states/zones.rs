use vstd::prelude::*;

use crate::states::catalog::RegionCatalog;
use crate::states::names::{parsed_all, text_of};

verus! {

/// The identifier of the time zone at place `index` of the time zone
/// database's list of zones; `None` where the list has no such place.
pub uninterp spec fn zone_name_at(index: int) -> Option<Seq<char>>;

/// Looks one zone up in `chrono_tz::TZ_VARIANTS`, the database's list of
/// all its zones, and asks it for its identifier with `Tz::name`.
///
/// The list and the identifiers are tables that are fixed when the
/// database is compiled in, so what comes back depends on `index` alone.
#[verifier::external_body]
fn zone_name(index: usize) -> (name: Option<String>)
    ensures
        text_of(name) == zone_name_at(index as int),
{
    chrono_tz::TZ_VARIANTS.get(index).map(|zone| zone.name().to_string())
}

/// `names` are the identifiers of the zones of the database's list, in the
/// order of that list, from its start up to the first place that it does
/// not have.
pub open spec fn database_names(names: Seq<String>) -> bool {
    &&& forall|k: int| 0 <= k < names.len() ==> zone_name_at(k) == Some((#[trigger] names[k])@)
    &&& names.len() < usize::MAX ==> zone_name_at(names.len() as int) is None
}

/// The identifiers of the zones of the time zone database, in the order of
/// its list.
pub fn zone_names() -> (names: Vec<String>)
    ensures
        database_names(names@),
{
    let mut names: Vec<String> = Vec::new();
    let mut index: usize = 0;
    while index < usize::MAX
        invariant
            names@.len() == index,
            forall|k: int| 0 <= k < index ==> zone_name_at(k) == Some((#[trigger] names@[k])@),
        decreases usize::MAX - index,
    {
        match zone_name(index) {
            Some(name) => {
                names.push(name);
            },
            None => {
                return names;
            },
        }
        index += 1;
    }
    names
}

/// The catalog of the regions of the time zone database, and the
/// identifiers that it was made from. A zone of the catalog is a place in
/// these identifiers, and so in the database's list.
pub fn zone_catalog() -> (made: (Vec<String>, RegionCatalog))
    ensures
        database_names(made.0@),
        made.1@.wf(),
        made.1@.derived_from(parsed_all(made.0@)),
{
    let names = zone_names();
    let catalog = RegionCatalog::new(&names);
    (names, catalog)
}

} // verus!

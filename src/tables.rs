//! The two hash tables of the cache, kept in `fxhash` maps.
use crate::bitmap::{Bitmap, BitmapView};
use fxhash::FxHashMap;
use vstd::prelude::*;

verus! {

/// The hasher behind `FxHashMap`; opaque here.
#[verifier::external_type_specification]
#[verifier::external_body]
pub struct ExFxHasher(fxhash::FxHasher);

/// The builder that `FxHashMap` makes its hashers with; opaque here.
#[verifier::external_type_specification]
#[verifier::external_body]
#[verifier::reject_recursive_types(H)]
pub struct ExBuildHasherDefault<H>(core::hash::BuildHasherDefault<H>);

/// What an SVG table holds: the SVG text stored under each id.
pub uninterp spec fn svg_entries(m: FxHashMap<String, String>) -> Map<Seq<char>, Seq<char>>;

/// What a bitmap table holds: the bitmap stored under each id.
pub uninterp spec fn bitmap_entries(m: FxHashMap<String, Bitmap>) -> Map<Seq<char>, BitmapView>;

/// Relies on `FxHashMap::default`: a new map holds nothing.
#[verifier::external_body]
pub(crate) fn new_svg_table() -> (r: FxHashMap<String, String>)
    ensures
        forall|k: Seq<char>| !(#[trigger] svg_entries(r).contains_key(k)),
{
    FxHashMap::default()
}

/// Relies on `HashMap::get`: the value stored under the key, if any.
#[verifier::external_body]
pub(crate) fn svg_table_get<'a>(m: &'a FxHashMap<String, String>, k: &str) -> (r: Option<&'a String>)
    ensures
        r is Some <==> svg_entries(*m).contains_key(k@),
        r matches Some(v) ==> v@ == svg_entries(*m)[k@],
{
    m.get(k)
}

/// Relies on `HashMap::insert`: afterwards the key maps to the value, and
/// every other key keeps its value.
#[verifier::external_body]
pub(crate) fn svg_table_insert(m: &mut FxHashMap<String, String>, k: String, v: String)
    ensures
        svg_entries(*final(m)) == svg_entries(*old(m)).insert(k@, v@),
{
    m.insert(k, v);
}

/// Relies on `FxHashMap::default`: a new map holds nothing.
#[verifier::external_body]
pub(crate) fn new_bitmap_table() -> (r: FxHashMap<String, Bitmap>)
    ensures
        forall|k: Seq<char>| !(#[trigger] bitmap_entries(r).contains_key(k)),
{
    FxHashMap::default()
}

/// Relies on `HashMap::get`: the value stored under the key, if any.
#[verifier::external_body]
pub(crate) fn bitmap_table_get<'a>(m: &'a FxHashMap<String, Bitmap>, k: &str) -> (r: Option<&'a Bitmap>)
    ensures
        r is Some <==> bitmap_entries(*m).contains_key(k@),
        r matches Some(v) ==> v@ == bitmap_entries(*m)[k@],
{
    m.get(k)
}

/// Relies on `HashMap::insert`: afterwards the key maps to the value, and
/// every other key keeps its value.
#[verifier::external_body]
pub(crate) fn bitmap_table_insert(m: &mut FxHashMap<String, Bitmap>, k: String, v: Bitmap)
    ensures
        bitmap_entries(*final(m)) == bitmap_entries(*old(m)).insert(k@, v@),
{
    m.insert(k, v);
}

} // verus!

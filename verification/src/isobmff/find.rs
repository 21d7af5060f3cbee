use vstd::prelude::*;
use super::types::{
    box_views, BoxModel, InfoEntryModel, ItemInfoEntryBox, ItemLocationItem, ItemReferenceEntry,
    LocationItemModel, ParsedBox,
};
use super::boxes::all_offsets_fit;

verus! {

/// The first element of `s` that satisfies `p`.
pub open spec fn find_first<T>(s: Seq<T>, p: spec_fn(T) -> bool) -> Option<T>
    decreases s.len(),
{
    if s.len() == 0 {
        None
    } else if p(s[0]) {
        Some(s[0])
    } else {
        find_first(s.drop_first(), p)
    }
}

pub proof fn lemma_find_first_step<T>(s: Seq<T>, p: spec_fn(T) -> bool, i: int)
    requires
        0 <= i < s.len(),
    ensures
        find_first(s.skip(i), p) == if p(s[i]) { Some(s[i]) } else { find_first(s.skip(i + 1), p) },
{
    assert(s.skip(i)[0] == s[i]);
    assert(s.skip(i).drop_first() =~= s.skip(i + 1));
}

pub proof fn lemma_find_first_ends<T>(s: Seq<T>, p: spec_fn(T) -> bool)
    ensures
        find_first(s.skip(0), p) == find_first(s, p),
        find_first(s.skip(s.len() as int), p) is None,
{
    assert(s.skip(0) =~= s);
    assert(s.skip(s.len() as int).len() == 0);
}

/// Law (first match): what `find_first` gives is an element of `s` that satisfies
/// `p`, and no element before it does; when it gives nothing, no element does.
pub proof fn law_find_first<T>(s: Seq<T>, p: spec_fn(T) -> bool)
    ensures
        find_first(s, p) matches Some(x) ==> exists|i: int| 0 <= i < s.len() && s[i] == x && p(x)
            && forall|j: int| 0 <= j < i ==> !p(#[trigger] s[j]),
        find_first(s, p) is None ==> forall|j: int| 0 <= j < s.len() ==> !p(#[trigger] s[j]),
    decreases s.len(),
{
    if s.len() > 0 && !p(s[0]) {
        let t = s.drop_first();
        law_find_first(t, p);
        if let Some(x) = find_first(t, p) {
            let i = choose|i: int| 0 <= i < t.len() && t[i] == x && p(x) && forall|j: int| 0 <= j < i ==> !p(#[trigger] t[j]);
            assert(s[i + 1] == x);
            assert forall|j: int| 0 <= j < i + 1 implies !p(#[trigger] s[j]) by {
                if j > 0 {
                    assert(s[j] == t[j - 1]);
                }
            }
        } else {
            assert forall|j: int| 0 <= j < s.len() implies !p(#[trigger] s[j]) by {
                if j > 0 {
                    assert(s[j] == t[j - 1]);
                }
            }
        }
    } else if s.len() > 0 {
        assert(s[0] == s[0]);
    }
}

/// Boxes of type `ty`.
pub open spec fn has_type(ty: [u8; 4]) -> spec_fn(BoxModel) -> bool {
    |b: BoxModel| b.header.box_type.0 == ty
}

/// The first box of type `ty`.
pub open spec fn spec_find_box(cs: Seq<BoxModel>, ty: [u8; 4]) -> Option<BoxModel> {
    find_first(cs, has_type(ty))
}

/// Item info entries describing item `id`.
pub open spec fn entry_has_id(id: u32) -> spec_fn(InfoEntryModel) -> bool {
    |e: InfoEntryModel| e.item_id == id
}

/// Item locations of item `id`.
pub open spec fn location_has_id(id: u32) -> spec_fn(LocationItemModel) -> bool {
    |l: LocationItemModel| l.item_id == id
}

pub fn find_first_child_box<'a, 'b>(children: &'b [ParsedBox<'a>], box_type: [u8; 4]) -> (r: Option<&'b ParsedBox<'a>>)
    ensures
        match r {
            Some(b) => spec_find_box(box_views(children@), box_type) == Some(b@)
                && (all_offsets_fit(children@) ==> b.offsets_fit()),
            None => spec_find_box(box_views(children@), box_type) is None,
        },
{
    let ghost cs = box_views(children@);
    proof {
        lemma_find_first_ends(cs, has_type(box_type));
    }
    let mut i: usize = 0;
    while i < children.len()
        invariant
            i <= children@.len(),
            cs == box_views(children@),
            find_first(cs.skip(i as int), has_type(box_type)) == spec_find_box(cs, box_type),
        decreases children@.len() - i,
    {
        proof {
            lemma_find_first_step(cs, has_type(box_type), i as int);
            assert(cs[i as int] == children@[i as int]@);
        }
        if children[i].header.box_type.is(box_type) {
            return Some(&children[i]);
        }
        i = i + 1;
    }
    proof {
        lemma_find_first_ends(cs, has_type(box_type));
    }
    None
}

pub fn copy_bytes(v: &Vec<u8>) -> (r: Vec<u8>)
    ensures
        r@ == v@,
{
    vstd::slice::slice_to_vec(v.as_slice())
}

pub fn copy_opt_bytes(v: &Option<Vec<u8>>) -> (r: Option<Vec<u8>>)
    ensures
        super::types::opt_bytes_view(r) == super::types::opt_bytes_view(*v),
{
    match v {
        Some(b) => Some(copy_bytes(b)),
        None => None,
    }
}

pub fn copy_info_entry(e: &ItemInfoEntryBox) -> (r: ItemInfoEntryBox)
    ensures
        r@ == e@,
{
    ItemInfoEntryBox {
        full_box: e.full_box,
        item_id: e.item_id,
        item_protection_index: e.item_protection_index,
        item_type: e.item_type,
        item_name: copy_bytes(&e.item_name),
        content_type: copy_opt_bytes(&e.content_type),
        content_encoding: copy_opt_bytes(&e.content_encoding),
        item_uri_type: copy_opt_bytes(&e.item_uri_type),
        hidden_item: e.hidden_item,
    }
}

pub fn copy_location_item(l: &ItemLocationItem) -> (r: ItemLocationItem)
    ensures
        r@ == l@,
{
    ItemLocationItem {
        item_id: l.item_id,
        construction_method: l.construction_method,
        data_reference_index: l.data_reference_index,
        base_offset: l.base_offset,
        extents: vstd::slice::slice_to_vec(l.extents.as_slice()),
    }
}

pub fn copy_reference_entry(r0: &ItemReferenceEntry) -> (r: ItemReferenceEntry)
    ensures
        r@ == r0@,
{
    ItemReferenceEntry {
        reference_type: r0.reference_type,
        from_item_id: r0.from_item_id,
        to_item_ids: vstd::slice::slice_to_vec(r0.to_item_ids.as_slice()),
    }
}

/// The first info entry describing item `id`, copied.
pub fn find_info_entry(entries: &Vec<ItemInfoEntryBox>, id: u32) -> (r: Option<ItemInfoEntryBox>)
    ensures
        match r {
            Some(e) => find_first(super::types::info_entry_views(entries@), entry_has_id(id)) == Some(e@),
            None => find_first(super::types::info_entry_views(entries@), entry_has_id(id)) is None,
        },
{
    let ghost s = super::types::info_entry_views(entries@);
    proof {
        lemma_find_first_ends(s, entry_has_id(id));
    }
    let mut i: usize = 0;
    while i < entries.len()
        invariant
            i <= entries@.len(),
            s == super::types::info_entry_views(entries@),
            find_first(s.skip(i as int), entry_has_id(id)) == find_first(s, entry_has_id(id)),
        decreases entries@.len() - i,
    {
        proof {
            lemma_find_first_step(s, entry_has_id(id), i as int);
        }
        if entries[i].item_id == id {
            return Some(copy_info_entry(&entries[i]));
        }
        i = i + 1;
    }
    proof {
        lemma_find_first_ends(s, entry_has_id(id));
    }
    None
}

/// The first location of item `id`, copied.
pub fn find_location_item(items: &Vec<ItemLocationItem>, id: u32) -> (r: Option<ItemLocationItem>)
    ensures
        match r {
            Some(l) => find_first(super::types::loc_item_views(items@), location_has_id(id)) == Some(l@),
            None => find_first(super::types::loc_item_views(items@), location_has_id(id)) is None,
        },
{
    let ghost s = super::types::loc_item_views(items@);
    proof {
        lemma_find_first_ends(s, location_has_id(id));
    }
    let mut i: usize = 0;
    while i < items.len()
        invariant
            i <= items@.len(),
            s == super::types::loc_item_views(items@),
            find_first(s.skip(i as int), location_has_id(id)) == find_first(s, location_has_id(id)),
        decreases items@.len() - i,
    {
        proof {
            lemma_find_first_step(s, location_has_id(id), i as int);
        }
        if items[i].item_id == id {
            return Some(copy_location_item(&items[i]));
        }
        i = i + 1;
    }
    proof {
        lemma_find_first_ends(s, location_has_id(id));
    }
    None
}

} // verus!

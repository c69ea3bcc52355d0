//! Project assets of a Unity `.unitypackage` (a gzip-compressed tar archive
//! with `<guid>/asset`, `<guid>/asset.meta` and `<guid>/pathname` entries),
//! indexed by Unity pathname (`"Assets/..."`) and by GUID.

use vstd::prelude::*;
use crate::order::{sorted_insert, strictly_sorted};
use crate::text::{
    chars_eq, chars_to_string, ends_with, ends_with_lit, eq_lit, first_some, lemma_first_some_end,
    lemma_first_some_step, lines, split_lines, starts_with, starts_with_chars, str_chars,
    strings_view, strip_prefix, strip_prefix_lit, trim, trim_chars, vv, ends_with_chars,
};

verus! {

// ── Outside decoders ─────────────────────────────────

/// What gzip decompression (`flate2::read::GzDecoder`) makes of `data`.
pub uninterp spec fn gunzip_result(data: Seq<u8>) -> Option<Seq<u8>>;

/// What `String::from_utf8_lossy` makes of `bytes`.
pub uninterp spec fn utf8_lossy_result(bytes: Seq<u8>) -> Seq<char>;

/// One entry of a tar archive.
pub struct TarEntry {
    pub components: Vec<String>,
    pub is_file: bool,
    pub data: Vec<u8>,
}

pub open spec fn tar_entry_view(e: TarEntry) -> (Seq<Seq<char>>, bool, Seq<u8>) {
    (strings_view(e.components@), e.is_file, e.data@)
}

pub open spec fn tar_entries_view(v: Seq<TarEntry>) -> Seq<(Seq<Seq<char>>, bool, Seq<u8>)> {
    v.map_values(|e: TarEntry| tar_entry_view(e))
}

/// Gzip decompression of a whole stream (`flate2::read::GzDecoder`,
/// `Read::read_to_end`); the contract names the result.
#[verifier::external_body]
fn gunzip(data: &[u8]) -> (r: Option<Vec<u8>>)
    ensures
        r matches Some(v) ==> gunzip_result(data@) == Some(v@),
        r is None ==> gunzip_result(data@) is None,
{
    let mut out = Vec::new();
    std::io::Read::read_to_end(&mut flate2::read::GzDecoder::new(data), &mut out).ok()?;
    Some(out)
}

/// The entries of a tar archive (`tar::Archive::entries`, `Entry::path`,
/// `Header::entry_type`, `Read::read_to_end`): per entry, its path
/// components (lossily decoded), whether it is a regular file, and its
/// bytes. Nothing is stated of them: the tar crate reads an entry path that
/// is not UTF-8 on Unix and refuses it elsewhere, and splits components at
/// a backslash only on Windows, so the same archive can give different
/// entries, or none, on different platforms.
#[verifier::external_body]
fn tar_entries(archive: &[u8]) -> (r: Option<Vec<TarEntry>>)
{
    let mut ar = tar::Archive::new(archive);
    let mut out = Vec::new();
    for entry in ar.entries().ok()? {
        let mut entry = entry.ok()?;
        let is_file = entry.header().entry_type().is_file();
        let components = entry.path().ok()?.iter().map(|c| c.to_string_lossy().into_owned()).collect();
        let mut data = Vec::new();
        std::io::Read::read_to_end(&mut entry, &mut data).ok()?;
        out.push(TarEntry { components, is_file, data });
    }
    Some(out)
}

/// `String::from_utf8_lossy`; the contract names the result, and says what
/// std documents: valid UTF-8 decodes to its own chars, unchanged.
#[verifier::external_body]
pub(crate) fn utf8_lossy(bytes: &[u8]) -> (r: String)
    ensures
        r@ == utf8_lossy_result(bytes@),
        vstd::utf8::valid_utf8(bytes@) ==> r@ == vstd::utf8::decode_utf8(bytes@),
{
    String::from_utf8_lossy(bytes).into_owned()
}

// ── Meta files ───────────────────────────────────────

/// The value of a `guid:` line, trimmed, when not empty.
pub open spec fn meta_line_guid(l: Seq<char>) -> Option<Seq<char>> {
    match strip_prefix(trim(l), "guid:"@) {
        Some(v) => if trim(v).len() > 0 {
            Some(trim(v))
        } else {
            None
        },
        None => None,
    }
}

/// The GUID a `.meta` text declares: that of its first non-empty `guid:` line.
pub open spec fn meta_guid_spec(text: Seq<char>) -> Option<Seq<char>> {
    first_some(lines(text).map_values(|l: Seq<char>| meta_line_guid(l)))
}

fn meta_line_guid_of(l: &[char]) -> (r: Option<Vec<char>>)
    ensures
        r matches Some(v) ==> meta_line_guid(l@) == Some(v@),
        r is None ==> meta_line_guid(l@) is None,
{
    let t = trim_chars(l);
    match strip_prefix_lit(t.as_slice(), "guid:") {
        Some(v) => {
            let g = trim_chars(v.as_slice());
            if g.len() > 0 {
                Some(g)
            } else {
                None
            }
        },
        None => None,
    }
}

/// The GUID declared by a `.meta` text.
pub fn read_guid_from_meta_text(text: &str) -> (r: Option<String>)
    ensures
        r matches Some(g) ==> meta_guid_spec(text@) == Some(g@),
        r is None ==> meta_guid_spec(text@) is None,
{
    let t = str_chars(text);
    let ls = split_lines(t.as_slice());
    let ghost vals = lines(text@).map_values(|l: Seq<char>| meta_line_guid(l));
    let mut i: usize = 0;
    assert(vals.skip(0) =~= vals);
    while i < ls.len()
        invariant
            vv(ls@) == lines(text@),
            vals == lines(text@).map_values(|l: Seq<char>| meta_line_guid(l)),
            i <= ls@.len(),
            first_some(vals) == first_some(vals.skip(i as int)),
        decreases ls.len() - i,
    {
        proof {
            lemma_first_some_step(vals, i as int);
            assert(vals[i as int] == meta_line_guid(ls@[i as int]@));
        }
        match meta_line_guid_of(ls[i].as_slice()) {
            Some(g) => {
                return Some(chars_to_string(g.as_slice()));
            },
            None => {},
        }
        i = i + 1;
    }
    proof {
        lemma_first_some_end(vals);
    }
    None
}


// ── Package index ────────────────────────────────────

/// One asset of a package: Unity pathname, GUID and bytes.
pub struct AssetRecord {
    pub pathname: String,
    pub guid: String,
    pub bytes: Vec<u8>,
}

/// The assets of a package; where two records share a pathname or a GUID,
/// the later one is the one that lookups see.
pub struct AssetIndex {
    pub records: Vec<AssetRecord>,
}

pub open spec fn record_view(r: AssetRecord) -> (Seq<char>, Seq<char>, Seq<u8>) {
    (r.pathname@, r.guid@, r.bytes@)
}

pub open spec fn index_view(idx: AssetIndex) -> Seq<(Seq<char>, Seq<char>, Seq<u8>)> {
    idx.records@.map_values(|r: AssetRecord| record_view(r))
}

/// The package folder of one GUID while the archive is read.
pub struct SlotView {
    pub folder: Seq<char>,
    pub pathname: Option<Seq<char>>,
    pub asset: Option<Seq<u8>>,
    pub meta: Option<Seq<char>>,
}

pub open spec fn find_slot(slots: Seq<SlotView>, folder: Seq<char>) -> Option<int>
    decreases slots.len(),
{
    if slots.len() == 0 {
        None
    } else if slots.last().folder == folder {
        Some(slots.len() - 1)
    } else {
        find_slot(slots.drop_last(), folder)
    }
}

/// What one file of the archive adds to its folder's slot.
pub open spec fn update_slot(slot: SlotView, leaf: Seq<char>, data: Seq<u8>) -> SlotView {
    if leaf == "pathname"@ {
        let text = trim(utf8_lossy_result(data));
        if text.len() > 0 {
            SlotView { pathname: Some(text), ..slot }
        } else {
            slot
        }
    } else if leaf == "asset"@ {
        SlotView { asset: Some(data), ..slot }
    } else if leaf == "asset.meta"@ {
        SlotView { meta: Some(utf8_lossy_result(data)), ..slot }
    } else {
        slot
    }
}

/// Slots after one archive entry: regular files at `<guid>/<leaf>` open (or
/// reuse) the slot of `<guid>` and update it.
pub open spec fn apply_entry(slots: Seq<SlotView>, e: (Seq<Seq<char>>, bool, Seq<u8>)) -> Seq<SlotView> {
    if !e.1 || e.0.len() != 2 {
        slots
    } else {
        let folder = e.0[0];
        match find_slot(slots, folder) {
            Some(k) => slots.update(k, update_slot(slots[k], e.0[1], e.2)),
            None => slots.push(
                update_slot(SlotView { folder, pathname: None, asset: None, meta: None }, e.0[1], e.2),
            ),
        }
    }
}

pub open spec fn slots_upto(entries: Seq<(Seq<Seq<char>>, bool, Seq<u8>)>, n: nat) -> Seq<SlotView>
    decreases n,
{
    if n == 0 || n > entries.len() {
        Seq::empty()
    } else {
        apply_entry(slots_upto(entries, (n - 1) as nat), entries[n - 1])
    }
}

/// The record of a slot that has both a pathname and an asset; its GUID is
/// the one in the `.meta` text when present, the folder name otherwise.
pub open spec fn slot_record(s: SlotView) -> Option<(Seq<char>, Seq<char>, Seq<u8>)> {
    match (s.pathname, s.asset) {
        (Some(p), Some(a)) => {
            let guid = match s.meta {
                Some(m) => match meta_guid_spec(m) {
                    Some(g) => g,
                    None => s.folder,
                },
                None => s.folder,
            };
            Some((p, guid, a))
        },
        _ => None,
    }
}

pub open spec fn slot_records(slots: Seq<SlotView>) -> Seq<(Seq<char>, Seq<char>, Seq<u8>)>
    decreases slots.len(),
{
    if slots.len() == 0 {
        Seq::empty()
    } else {
        let rest = slot_records(slots.drop_last());
        match slot_record(slots.last()) {
            Some(r) => rest.push(r),
            None => rest,
        }
    }
}

/// The index a package's entries describe.
pub open spec fn package_records(entries: Seq<(Seq<Seq<char>>, bool, Seq<u8>)>) -> Seq<
    (Seq<char>, Seq<char>, Seq<u8>),
> {
    slot_records(slots_upto(entries, entries.len()))
}

struct Slot {
    folder: String,
    pathname: Option<String>,
    asset: Option<Vec<u8>>,
    meta: Option<String>,
}

spec fn slot_view(s: Slot) -> SlotView {
    SlotView {
        folder: s.folder@,
        pathname: match s.pathname {
            Some(p) => Some(p@),
            None => None,
        },
        asset: match s.asset {
            Some(a) => Some(a@),
            None => None,
        },
        meta: match s.meta {
            Some(m) => Some(m@),
            None => None,
        },
    }
}

spec fn slots_view(v: Seq<Slot>) -> Seq<SlotView> {
    v.map_values(|s: Slot| slot_view(s))
}

fn find_slot_index(slots: &Vec<Slot>, folder: &[char]) -> (r: Option<usize>)
    ensures
        r matches Some(k) ==> k < slots@.len(),
        match r {
            Some(k) => find_slot(slots_view(slots@), folder@) == Some(k as int),
            None => find_slot(slots_view(slots@), folder@) is None,
        },
{
    let ghost sv = slots_view(slots@);
    let mut n: usize = slots.len();
    assert(sv.take(n as int) =~= sv);
    while n > 0
        invariant
            sv == slots_view(slots@),
            n <= slots@.len(),
            find_slot(sv, folder@) == find_slot(sv.take(n as int), folder@),
        decreases n,
    {
        let f = str_chars(slots[n - 1].folder.as_str());
        assert(sv.take(n as int).last() == slot_view(slots@[n - 1]));
        if chars_eq(f.as_slice(), folder) {
            return Some(n - 1);
        }
        assert(sv.take(n as int).drop_last() =~= sv.take(n - 1));
        n = n - 1;
    }
    None
}

fn update_slot_exec(slot: Slot, leaf: &[char], data: &[u8]) -> (r: Slot)
    ensures
        slot_view(r) == update_slot(slot_view(slot), leaf@, data@),
{
    if eq_lit(leaf, "pathname") {
        let lossy = utf8_lossy(data);
        let lc = str_chars(lossy.as_str());
        let text = trim_chars(lc.as_slice());
        if text.len() > 0 {
            Slot { pathname: Some(chars_to_string(text.as_slice())), ..slot }
        } else {
            slot
        }
    } else if eq_lit(leaf, "asset") {
        Slot { asset: Some(copy_bytes(data)), ..slot }
    } else if eq_lit(leaf, "asset.meta") {
        Slot { meta: Some(utf8_lossy(data)), ..slot }
    } else {
        slot
    }
}

pub(crate) fn copy_bytes(a: &[u8]) -> (r: Vec<u8>)
    ensures
        r@ == a@,
{
    let mut r: Vec<u8> = Vec::new();
    let mut i: usize = 0;
    while i < a.len()
        invariant
            i <= a@.len(),
            r@ == a@.take(i as int),
        decreases a.len() - i,
    {
        r.push(a[i]);
        i = i + 1;
        assert(r@ =~= a@.take(i as int));
    }
    r
}

pub(crate) fn string_copy(s: &String) -> (r: String)
    ensures
        r@ == s@,
{
    let c = str_chars(s.as_str());
    chars_to_string(c.as_slice())
}

/// Builds the index of a `.unitypackage` held in memory. `None` when the
/// bytes are not a gzip stream, or the tar crate cannot read the archive
/// inside; else the index of the entries it read.
pub fn build_external_index_from_unitypackage_bytes(bytes: &[u8]) -> (r: Option<AssetIndex>)
    ensures
        gunzip_result(bytes@) is None ==> r is None,
        r matches Some(idx) ==> exists|es: Seq<TarEntry>|
            index_view(idx) == package_records(#[trigger] tar_entries_view(es)),
{
    let tar_bytes = match gunzip(bytes) {
        Some(t) => t,
        None => return None,
    };
    let entries = match tar_entries(tar_bytes.as_slice()) {
        Some(e) => e,
        None => return None,
    };
    let idx = index_from_tar_entries(entries.as_slice());
    assert(index_view(idx) == package_records(tar_entries_view(entries@)));
    Some(idx)
}

/// The index that the entries of a package's tar archive describe: each
/// `<guid>/pathname`, `<guid>/asset` and `<guid>/asset.meta` file fills the
/// slot of its folder, and each slot with a pathname and an asset gives a
/// record.
pub fn index_from_tar_entries(entries: &[TarEntry]) -> (r: AssetIndex)
    ensures
        index_view(r) == package_records(tar_entries_view(entries@)),
{
    let ghost ev = tar_entries_view(entries@);
    let mut slots: Vec<Slot> = Vec::new();
    let mut i: usize = 0;
    while i < entries.len()
        invariant
            ev == tar_entries_view(entries@),
            i <= entries@.len(),
            slots_view(slots@) == slots_upto(ev, i as nat),
        decreases entries.len() - i,
    {
        let e = &entries[i];
        let ghost before = slots_view(slots@);
        assert(ev[i as int] == tar_entry_view(entries@[i as int]));
        if e.is_file && e.components.len() == 2 {
            let folder = str_chars(e.components[0].as_str());
            let leaf = str_chars(e.components[1].as_str());
            match find_slot_index(&slots, folder.as_slice()) {
                Some(k) => {
                    let old_slot = slots.remove(k);
                    let new_slot = update_slot_exec(old_slot, leaf.as_slice(), e.data.as_slice());
                    slots.insert(k, new_slot);
                    assert(slots_view(slots@) =~= before.update(
                        k as int,
                        update_slot(before[k as int], leaf@, e.data@),
                    ));
                },
                None => {
                    let fresh = Slot {
                        folder: chars_to_string(folder.as_slice()),
                        pathname: None,
                        asset: None,
                        meta: None,
                    };
                    let new_slot = update_slot_exec(fresh, leaf.as_slice(), e.data.as_slice());
                    slots.push(new_slot);
                    assert(slots_view(slots@) =~= before.push(
                        update_slot(
                            SlotView { folder: folder@, pathname: None, asset: None, meta: None },
                            leaf@,
                            e.data@,
                        ),
                    ));
                },
            }
        }
        i = i + 1;
    }
    let ghost sv = slots_view(slots@);
    let mut records: Vec<AssetRecord> = Vec::new();
    let mut j: usize = 0;
    while j < slots.len()
        invariant
            sv == slots_view(slots@),
            sv == slots_upto(ev, ev.len()),
            j <= slots@.len(),
            records@.map_values(|r: AssetRecord| record_view(r)) == slot_records(sv.take(j as int)),
        decreases slots.len() - j,
    {
        let slot = &slots[j];
        let ghost before = records@.map_values(|r: AssetRecord| record_view(r));
        assert(sv.take(j + 1).drop_last() =~= sv.take(j as int));
        assert(sv.take(j + 1).last() == slot_view(slots@[j as int]));
        match (&slot.pathname, &slot.asset) {
            (Some(p), Some(a)) => {
                let guid = match &slot.meta {
                    Some(m) => match read_guid_from_meta_text(m.as_str()) {
                        Some(g) => g,
                        None => string_copy(&slot.folder),
                    },
                    None => string_copy(&slot.folder),
                };
                records.push(AssetRecord { pathname: string_copy(p), guid, bytes: copy_bytes(a.as_slice()) });
                assert(records@.map_values(|r: AssetRecord| record_view(r)) =~= before.push(
                    slot_record(slot_view(slots@[j as int]))->0,
                ));
            },
            _ => {},
        }
        j = j + 1;
    }
    assert(sv.take(j as int) =~= sv);
    AssetIndex { records }
}


// ── Lookups ──────────────────────────────────────────

/// Position of the last record with pathname `p`.
pub open spec fn last_with_pathname(recs: Seq<(Seq<char>, Seq<char>, Seq<u8>)>, p: Seq<char>) -> Option<int>
    decreases recs.len(),
{
    if recs.len() == 0 {
        None
    } else if recs.last().0 == p {
        Some(recs.len() - 1)
    } else {
        last_with_pathname(recs.drop_last(), p)
    }
}

/// Position of the last record with GUID `g`.
pub open spec fn last_with_guid(recs: Seq<(Seq<char>, Seq<char>, Seq<u8>)>, g: Seq<char>) -> Option<int>
    decreases recs.len(),
{
    if recs.len() == 0 {
        None
    } else if recs.last().1 == g {
        Some(recs.len() - 1)
    } else {
        last_with_guid(recs.drop_last(), g)
    }
}

pub open spec fn guid_for_pathname_spec(recs: Seq<(Seq<char>, Seq<char>, Seq<u8>)>, p: Seq<char>) -> Option<Seq<char>> {
    match last_with_pathname(recs, p) {
        Some(i) => if recs[i].1.len() == 0 {
            None
        } else {
            Some(recs[i].1)
        },
        None => None,
    }
}

pub open spec fn bytes_for_pathname_spec(recs: Seq<(Seq<char>, Seq<char>, Seq<u8>)>, p: Seq<char>) -> Option<Seq<u8>> {
    match last_with_pathname(recs, p) {
        Some(i) => Some(recs[i].2),
        None => None,
    }
}

pub open spec fn pathname_for_guid_spec(recs: Seq<(Seq<char>, Seq<char>, Seq<u8>)>, g: Seq<char>) -> Option<Seq<char>> {
    match last_with_guid(recs, g) {
        Some(i) => Some(recs[i].0),
        None => None,
    }
}

pub(crate) fn find_last_pathname(index: &AssetIndex, pathname: &[char]) -> (r: Option<usize>)
    ensures
        match r {
            Some(i) => last_with_pathname(index_view(*index), pathname@) == Some(i as int) && i
                < index.records@.len(),
            None => last_with_pathname(index_view(*index), pathname@) is None,
        },
{
    let ghost recs = index_view(*index);
    let mut n: usize = index.records.len();
    assert(recs.take(n as int) =~= recs);
    while n > 0
        invariant
            recs == index_view(*index),
            n <= index.records@.len(),
            last_with_pathname(recs, pathname@) == last_with_pathname(recs.take(n as int), pathname@),
        decreases n,
    {
        let p = str_chars(index.records[n - 1].pathname.as_str());
        assert(recs.take(n as int).last() == record_view(index.records@[n - 1]));
        if chars_eq(p.as_slice(), pathname) {
            return Some(n - 1);
        }
        assert(recs.take(n as int).drop_last() =~= recs.take(n - 1));
        n = n - 1;
    }
    None
}

pub(crate) fn find_last_guid(index: &AssetIndex, guid: &[char]) -> (r: Option<usize>)
    ensures
        match r {
            Some(i) => last_with_guid(index_view(*index), guid@) == Some(i as int) && i
                < index.records@.len(),
            None => last_with_guid(index_view(*index), guid@) is None,
        },
{
    let ghost recs = index_view(*index);
    let mut n: usize = index.records.len();
    assert(recs.take(n as int) =~= recs);
    while n > 0
        invariant
            recs == index_view(*index),
            n <= index.records@.len(),
            last_with_guid(recs, guid@) == last_with_guid(recs.take(n as int), guid@),
        decreases n,
    {
        let g = str_chars(index.records[n - 1].guid.as_str());
        assert(recs.take(n as int).last() == record_view(index.records@[n - 1]));
        if chars_eq(g.as_slice(), guid) {
            return Some(n - 1);
        }
        assert(recs.take(n as int).drop_last() =~= recs.take(n - 1));
        n = n - 1;
    }
    None
}

/// The GUID of an asset pathname; `None` for an unknown pathname or an
/// empty GUID.
pub fn guid_for_pathname<'a>(index: &'a AssetIndex, pathname: &str) -> (r: Option<&'a str>)
    ensures
        match r {
            Some(g) => guid_for_pathname_spec(index_view(*index), pathname@) == Some(g@),
            None => guid_for_pathname_spec(index_view(*index), pathname@) is None,
        },
{
    let p = str_chars(pathname);
    match find_last_pathname(index, p.as_slice()) {
        Some(i) => {
            let g = index.records[i].guid.as_str();
            assert(g@ == index_view(*index)[i as int].1);
            if g.unicode_len() == 0 {
                None
            } else {
                Some(g)
            }
        },
        None => None,
    }
}

/// Read by full Unity pathname, e.g. `"Assets/Texture2D/foo.png"`.
pub fn read_pathname(index: &AssetIndex, pathname: &str) -> (r: Option<Vec<u8>>)
    ensures
        match r {
            Some(b) => bytes_for_pathname_spec(index_view(*index), pathname@) == Some(b@),
            None => bytes_for_pathname_spec(index_view(*index), pathname@) is None,
        },
{
    let p = str_chars(pathname);
    match find_last_pathname(index, p.as_slice()) {
        Some(i) => Some(copy_bytes(index.records[i].bytes.as_slice())),
        None => None,
    }
}

/// The asset at `pathname` as (lossily decoded) UTF-8 text.
pub fn read_pathname_text(index: &AssetIndex, pathname: &str) -> (r: Option<String>)
    ensures
        match r {
            Some(t) => bytes_for_pathname_spec(index_view(*index), pathname@) matches Some(b)
                && t@ == utf8_lossy_result(b),
            None => bytes_for_pathname_spec(index_view(*index), pathname@) is None,
        },
{
    match read_pathname(index, pathname) {
        Some(b) => Some(utf8_lossy(b.as_slice())),
        None => None,
    }
}

/// The pathname of a GUID.
pub fn pathname_for_guid<'a>(index: &'a AssetIndex, guid: &str) -> (r: Option<&'a str>)
    ensures
        match r {
            Some(p) => pathname_for_guid_spec(index_view(*index), guid@) == Some(p@),
            None => pathname_for_guid_spec(index_view(*index), guid@) is None,
        },
{
    let g = str_chars(guid);
    match find_last_guid(index, g.as_slice()) {
        Some(i) => Some(index.records[i].pathname.as_str()),
        None => None,
    }
}

/// The asset of a GUID (through its pathname) as (lossily decoded) UTF-8 text.
pub fn read_guid_text(index: &AssetIndex, guid: &str) -> (r: Option<String>)
    ensures
        match r {
            Some(t) => pathname_for_guid_spec(index_view(*index), guid@) matches Some(p)
                && bytes_for_pathname_spec(index_view(*index), p) matches Some(b) && t@
                == utf8_lossy_result(b),
            None => pathname_for_guid_spec(index_view(*index), guid@) matches Some(p) ==> bytes_for_pathname_spec(index_view(*index), p) is None,
        },
{
    match pathname_for_guid(index, guid) {
        Some(p) => read_pathname_text(index, p),
        None => None,
    }
}

/// Pathnames that start with `prefix` and end with `suffix`.
pub open spec fn listed(recs: Seq<(Seq<char>, Seq<char>, Seq<u8>)>, prefix: Seq<char>, suffix: Seq<char>, t: Seq<char>) -> bool {
    starts_with(t, prefix) && ends_with(t, suffix) && exists|i: int| 0 <= i < recs.len() && (#[trigger] recs[i]).0 == t
}

/// Full Unity pathnames matching `prefix` and `suffix`, sorted, each once.
pub fn list_pathnames(index: &AssetIndex, prefix: &str, suffix: &str) -> (r: Vec<String>)
    ensures
        strictly_sorted(strings_view(r@)),
        forall|t: Seq<char>| #[trigger] strings_view(r@).contains(t) <==> listed(index_view(*index), prefix@, suffix@, t),
{
    let ghost recs = index_view(*index);
    let pc = str_chars(prefix);
    let sc = str_chars(suffix);
    let mut out: Vec<String> = Vec::new();
    let mut i: usize = 0;
    while i < index.records.len()
        invariant
            recs == index_view(*index),
            pc@ == prefix@,
            sc@ == suffix@,
            i <= index.records@.len(),
            strictly_sorted(strings_view(out@)),
            forall|t: Seq<char>| #[trigger] strings_view(out@).contains(t) <==> listed(recs.take(i as int), prefix@, suffix@, t),
        decreases index.records.len() - i,
    {
        let p = str_chars(index.records[i].pathname.as_str());
        assert(recs[i as int].0 == p@);
        let ghost before = strings_view(out@);
        let keep = starts_with_chars(p.as_slice(), pc.as_slice()) && ends_with_chars(p.as_slice(), sc.as_slice());
        if keep {
            sorted_insert(&mut out, chars_to_string(p.as_slice()));
        }
        assert forall|t: Seq<char>| #[trigger] strings_view(out@).contains(t) <==> listed(recs.take(i + 1), prefix@, suffix@, t) by {
            let pre = recs.take(i as int);
            let post = recs.take(i + 1);
            if listed(post, prefix@, suffix@, t) {
                let k = choose|k: int| 0 <= k < post.len() && (#[trigger] post[k]).0 == t;
                if k < i {
                    assert(pre[k] == post[k]);
                    assert(listed(pre, prefix@, suffix@, t));
                }
            }
            if listed(pre, prefix@, suffix@, t) {
                let k = choose|k: int| 0 <= k < pre.len() && (#[trigger] pre[k]).0 == t;
                assert(post[k] == pre[k]);
            }
            if keep && t == p@ {
                assert(post[i as int].0 == t);
            }
        }
        i = i + 1;
    }
    assert(recs.take(i as int) =~= recs);
    out
}

} // verus!

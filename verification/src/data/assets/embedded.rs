//! Project assets in the native Unity package layout
//! (`<guid>/asset`, `<guid>/asset.meta`, `<guid>/pathname`), addressed by
//! Unity pathname (`"Assets/Texture2D/foo.png"`) or by GUID. An external
//! asset set, where one is configured, takes the place of the project's own.

use vstd::prelude::*;
use crate::data::assets::unitypackage_loader::{
    bytes_for_pathname_spec, copy_bytes, find_last_guid, find_last_pathname, index_view,
    last_with_guid, last_with_pathname, listed, pathname_for_guid_spec, record_view, utf8_lossy,
    utf8_lossy_result, AssetIndex, AssetRecord,
};
use crate::data::assets::unitypackage_loader as loader;
use crate::order::strictly_sorted;
use crate::text::{
    chars_eq, chars_to_string, str_chars, strings_view, strip_suffix, strip_suffix_lit, trim,
    trim_chars,
};

verus! {

/// One file of the project's asset set.
pub struct EmbeddedFile {
    pub path: String,
    pub data: Vec<u8>,
}

/// The project's asset set: every `<guid>/<leaf>` file with its bytes.
pub struct ProjectAssets {
    pub files: Vec<EmbeddedFile>,
}

pub open spec fn files_view(a: ProjectAssets) -> Seq<(Seq<char>, Seq<u8>)> {
    a.files@.map_values(|f: EmbeddedFile| (f.path@, f.data@))
}

/// Position of the first file at `path`.
pub open spec fn first_file(fs: Seq<(Seq<char>, Seq<u8>)>, path: Seq<char>) -> Option<int>
    decreases fs.len(),
{
    if fs.len() == 0 {
        None
    } else if fs[0].0 == path {
        Some(0)
    } else {
        match first_file(fs.drop_first(), path) {
            Some(i) => Some(i + 1),
            None => None,
        }
    }
}

/// The bytes of the file at `path`.
pub open spec fn file_bytes(fs: Seq<(Seq<char>, Seq<u8>)>, path: Seq<char>) -> Option<Seq<u8>> {
    match first_file(fs, path) {
        Some(i) => Some(fs[i].1),
        None => None,
    }
}

proof fn lemma_first_file(fs: Seq<(Seq<char>, Seq<u8>)>, path: Seq<char>, i: int)
    requires
        0 <= i <= fs.len(),
        forall|k: int| 0 <= k < i ==> (#[trigger] fs[k]).0 != path,
    ensures
        i < fs.len() && fs[i].0 == path ==> first_file(fs, path) == Some(i),
        i == fs.len() ==> first_file(fs, path) is None,
    decreases i,
{
    if i > 0 {
        let t = fs.drop_first();
        assert forall|k: int| 0 <= k < i - 1 implies (#[trigger] t[k]).0 != path by {
            assert(t[k] == fs[k + 1]);
        }
        lemma_first_file(t, path, i - 1);
        if i < fs.len() {
            assert(t[i - 1] == fs[i]);
        }
        assert(fs[0].0 != path);
    } else if fs.len() > 0 {
    }
}

proof fn lemma_first_file_bounds(fs: Seq<(Seq<char>, Seq<u8>)>, path: Seq<char>)
    ensures
        first_file(fs, path) matches Some(i) ==> 0 <= i < fs.len() && fs[i].0 == path,
    decreases fs.len(),
{
    if fs.len() > 0 {
        lemma_first_file_bounds(fs.drop_first(), path);
        if let Some(i) = first_file(fs.drop_first(), path) {
            assert(fs.drop_first()[i] == fs[i + 1]);
        }
    }
}

impl ProjectAssets {
    /// The bytes of the file at `path`.
    pub fn get(&self, path: &str) -> (r: Option<Vec<u8>>)
        ensures
            match r {
                Some(b) => file_bytes(files_view(*self), path@) == Some(b@),
                None => file_bytes(files_view(*self), path@) is None,
            },
    {
        let ghost fs = files_view(*self);
        let p = str_chars(path);
        let mut i: usize = 0;
        while i < self.files.len()
            invariant
                fs == files_view(*self),
                p@ == path@,
                i <= self.files@.len(),
                forall|k: int| 0 <= k < i ==> (#[trigger] fs[k]).0 != path@,
            decreases self.files.len() - i,
        {
            let f = str_chars(self.files[i].path.as_str());
            assert(fs[i as int] == (self.files@[i as int].path@, self.files@[i as int].data@));
            if chars_eq(f.as_slice(), p.as_slice()) {
                proof {
                    lemma_first_file(fs, path@, i as int);
                }
                return Some(copy_bytes(self.files[i].data.as_slice()));
            }
            i = i + 1;
        }
        proof {
            lemma_first_file(fs, path@, i as int);
        }
        None
    }
}

/// The index record a `<guid>/pathname` file makes: the trimmed pathname
/// (when not empty), the GUID, and the bytes of `<guid>/asset` (which must
/// exist).
pub open spec fn embedded_record(fs: Seq<(Seq<char>, Seq<u8>)>, i: int) -> Option<
    (Seq<char>, Seq<char>, Seq<u8>),
> {
    match strip_suffix(fs[i].0, "/pathname"@) {
        Some(g) => {
            let name = trim(utf8_lossy_result(fs[i].1));
            match file_bytes(fs, g + "/asset"@) {
                Some(b) => if name.len() > 0 {
                    Some((name, g, b))
                } else {
                    None
                },
                None => None,
            }
        },
        None => None,
    }
}

/// The records of the first `n` files, in order.
pub open spec fn embedded_records_upto(fs: Seq<(Seq<char>, Seq<u8>)>, n: nat) -> Seq<
    (Seq<char>, Seq<char>, Seq<u8>),
>
    decreases n,
{
    if n == 0 {
        Seq::empty()
    } else {
        let prev = embedded_records_upto(fs, (n - 1) as nat);
        match embedded_record(fs, n - 1) {
            Some(r) => prev.push(r),
            None => prev,
        }
    }
}

/// The index of the project's assets; for a pathname listed twice the
/// later file wins.
pub open spec fn embedded_records(fs: Seq<(Seq<char>, Seq<u8>)>) -> Seq<
    (Seq<char>, Seq<char>, Seq<u8>),
> {
    embedded_records_upto(fs, fs.len())
}

fn append_lit(v: &mut Vec<char>, lit: &str)
    ensures
        final(v)@ == old(v)@ + lit@,
{
    let l = str_chars(lit);
    let ghost start = v@;
    let mut i: usize = 0;
    while i < l.len()
        invariant
            i <= l@.len(),
            l@ == lit@,
            v@ == start + l@.take(i as int),
        decreases l.len() - i,
    {
        v.push(l[i]);
        i = i + 1;
        assert(v@ =~= start + l@.take(i as int));
    }
    assert(l@.take(i as int) =~= l@);
}

/// Builds the pathname index of the project's assets.
pub fn build_embedded_index(assets: &ProjectAssets) -> (r: AssetIndex)
    ensures
        index_view(r) == embedded_records(files_view(*assets)),
{
    let ghost fs = files_view(*assets);
    let mut records: Vec<AssetRecord> = Vec::new();
    let mut i: usize = 0;
    while i < assets.files.len()
        invariant
            fs == files_view(*assets),
            i <= assets.files@.len(),
            records@.map_values(|r: AssetRecord| record_view(r)) == embedded_records_upto(
                fs,
                i as nat,
            ),
        decreases assets.files.len() - i,
    {
        let f = &assets.files[i];
        assert(fs[i as int] == (f.path@, f.data@));
        let path = str_chars(f.path.as_str());
        let ghost before = records@.map_values(|r: AssetRecord| record_view(r));
        match strip_suffix_lit(path.as_slice(), "/pathname") {
            Some(g) => {
                let text = utf8_lossy(f.data.as_slice());
                let tc = str_chars(text.as_str());
                let name = trim_chars(tc.as_slice());
                let mut asset_path = crate::text::copy_range(g.as_slice(), 0, g.len());
                assert(asset_path@ =~= g@);
                append_lit(&mut asset_path, "/asset");
                let ap = chars_to_string(asset_path.as_slice());
                match assets.get(ap.as_str()) {
                    Some(b) => {
                        if name.len() > 0 {
                            let rec = AssetRecord {
                                pathname: chars_to_string(name.as_slice()),
                                guid: chars_to_string(g.as_slice()),
                                bytes: b,
                            };
                            records.push(rec);
                            assert(records@.map_values(|r: AssetRecord| record_view(r))
                                =~= before.push((name@, g@, b@)));
                        }
                    },
                    None => {},
                }
            },
            None => {},
        }
        i = i + 1;
    }
    assert(fs.len() == i);
    AssetIndex { records }
}

/// Where assets come from: the project's own set with its index, or an
/// external asset set (a directory or a `.unitypackage`).
pub enum AssetSource {
    Embedded { assets: ProjectAssets, index: AssetIndex },
    External(AssetIndex),
}

/// The index of a source.
pub open spec fn source_records(s: AssetSource) -> Seq<(Seq<char>, Seq<char>, Seq<u8>)> {
    match s {
        AssetSource::Embedded { index, .. } => index_view(index),
        AssetSource::External(index) => index_view(index),
    }
}

/// An embedded source holds the index of its own assets.
pub open spec fn source_wf(s: AssetSource) -> bool {
    match s {
        AssetSource::Embedded { assets, index } => index_view(index) == embedded_records(
            files_view(assets),
        ),
        AssetSource::External(_) => true,
    }
}

impl AssetSource {
    /// The project's own assets.
    pub fn embedded(assets: ProjectAssets) -> (r: AssetSource)
        ensures
            source_wf(r),
            r matches AssetSource::Embedded { assets: a, .. } && files_view(a) == files_view(
                assets,
            ),
    {
        let index = build_embedded_index(&assets);
        AssetSource::Embedded { assets, index }
    }

    fn index(&self) -> (r: &AssetIndex)
        ensures
            index_view(*r) == source_records(*self),
    {
        match self {
            AssetSource::Embedded { index, .. } => index,
            AssetSource::External(index) => index,
        }
    }
}

/// The GUID recorded for a pathname. The project's own index keeps an empty
/// GUID; an external one reports it as unknown.
pub open spec fn source_guid_spec(s: AssetSource, p: Seq<char>) -> Option<Seq<char>> {
    match s {
        AssetSource::Embedded { index, .. } => match last_with_pathname(index_view(index), p) {
            Some(i) => Some(index_view(index)[i].1),
            None => None,
        },
        AssetSource::External(index) => loader::guid_for_pathname_spec(index_view(index), p),
    }
}

/// The bytes of the asset at a pathname.
pub open spec fn source_bytes_spec(s: AssetSource, p: Seq<char>) -> Option<Seq<u8>> {
    match s {
        AssetSource::Embedded { assets, .. } => match source_guid_spec(s, p) {
            Some(g) => file_bytes(files_view(assets), g + "/asset"@),
            None => None,
        },
        AssetSource::External(index) => bytes_for_pathname_spec(index_view(index), p),
    }
}

/// The bytes of the asset of a GUID.
pub open spec fn source_guid_bytes_spec(s: AssetSource, g: Seq<char>) -> Option<Seq<u8>> {
    match s {
        AssetSource::Embedded { assets, .. } => file_bytes(files_view(assets), g + "/asset"@),
        AssetSource::External(index) => match pathname_for_guid_spec(index_view(index), g) {
            Some(p) => bytes_for_pathname_spec(index_view(index), p),
            None => None,
        },
    }
}

/// The GUID of an asset pathname.
pub fn guid_for_pathname<'a>(source: &'a AssetSource, pathname: &str) -> (r: Option<&'a str>)
    ensures
        match r {
            Some(g) => source_guid_spec(*source, pathname@) == Some(g@),
            None => source_guid_spec(*source, pathname@) is None,
        },
{
    match source {
        AssetSource::Embedded { index, .. } => {
            let p = str_chars(pathname);
            match find_last_pathname(index, p.as_slice()) {
                Some(i) => {
                    let g = index.records[i].guid.as_str();
                    assert(g@ == index_view(*index)[i as int].1);
                    Some(g)
                },
                None => None,
            }
        },
        AssetSource::External(index) => loader::guid_for_pathname(index, pathname),
    }
}

fn read_asset_by_guid(source: &AssetSource, guid: &str) -> (r: Option<Vec<u8>>)
    ensures
        match r {
            Some(b) => source_guid_bytes_spec(*source, guid@) == Some(b@),
            None => source_guid_bytes_spec(*source, guid@) is None,
        },
{
    match source {
        AssetSource::Embedded { assets, .. } => {
            let mut path = str_chars(guid);
            append_lit(&mut path, "/asset");
            let ps = chars_to_string(path.as_slice());
            assets.get(ps.as_str())
        },
        AssetSource::External(index) => match loader::pathname_for_guid(index, guid) {
            Some(p) => loader::read_pathname(index, p),
            None => None,
        },
    }
}

/// Read by full Unity pathname, e.g. `"Assets/Texture2D/foo.png"`.
pub fn read_pathname(source: &AssetSource, pathname: &str) -> (r: Option<Vec<u8>>)
    ensures
        match r {
            Some(b) => source_bytes_spec(*source, pathname@) == Some(b@),
            None => source_bytes_spec(*source, pathname@) is None,
        },
{
    match source {
        AssetSource::Embedded { .. } => match guid_for_pathname(source, pathname) {
            Some(g) => read_asset_by_guid(source, g),
            None => None,
        },
        AssetSource::External(index) => loader::read_pathname(index, pathname),
    }
}

/// The asset at a pathname as (lossily decoded) UTF-8 text.
pub fn read_pathname_text(source: &AssetSource, pathname: &str) -> (r: Option<String>)
    ensures
        match r {
            Some(t) => source_bytes_spec(*source, pathname@) matches Some(b) && t@
                == utf8_lossy_result(b),
            None => source_bytes_spec(*source, pathname@) is None,
        },
{
    match read_pathname(source, pathname) {
        Some(b) => Some(utf8_lossy(b.as_slice())),
        None => None,
    }
}

/// The asset of a GUID as (lossily decoded) UTF-8 text.
pub fn read_guid_text(source: &AssetSource, guid: &str) -> (r: Option<String>)
    ensures
        match r {
            Some(t) => source_guid_bytes_spec(*source, guid@) matches Some(b) && t@
                == utf8_lossy_result(b),
            None => source_guid_bytes_spec(*source, guid@) is None,
        },
{
    match read_asset_by_guid(source, guid) {
        Some(b) => Some(utf8_lossy(b.as_slice())),
        None => None,
    }
}

/// The pathname of a GUID.
pub fn pathname_for_guid<'a>(source: &'a AssetSource, guid: &str) -> (r: Option<&'a str>)
    ensures
        match r {
            Some(p) => pathname_for_guid_spec(source_records(*source), guid@) == Some(p@),
            None => pathname_for_guid_spec(source_records(*source), guid@) is None,
        },
{
    loader::pathname_for_guid(source.index(), guid)
}

/// Full Unity pathnames matching `prefix` and `suffix`, sorted, each once.
pub fn list_pathnames(source: &AssetSource, prefix: &str, suffix: &str) -> (r: Vec<String>)
    ensures
        strictly_sorted(strings_view(r@)),
        forall|t: Seq<char>| #[trigger]
            strings_view(r@).contains(t) <==> listed(source_records(*source), prefix@, suffix@, t),
{
    loader::list_pathnames(source.index(), prefix, suffix)
}

// ── Index laws ───────────────────────────────────────

/// No GUID is recorded for two different pathnames.
pub open spec fn guids_name_one_pathname(recs: Seq<(Seq<char>, Seq<char>, Seq<u8>)>) -> bool {
    forall|i: int, j: int|
        0 <= i < recs.len() && 0 <= j < recs.len() && (#[trigger] recs[i]).1 == (#[trigger] recs[j]).1
            ==> recs[i].0 == recs[j].0
}

proof fn lemma_last_with_pathname_found(recs: Seq<(Seq<char>, Seq<char>, Seq<u8>)>, p: Seq<char>)
    ensures
        last_with_pathname(recs, p) matches Some(i) ==> 0 <= i < recs.len() && recs[i].0 == p,
    decreases recs.len(),
{
    if recs.len() > 0 && recs.last().0 != p {
        lemma_last_with_pathname_found(recs.drop_last(), p);
    }
}

proof fn lemma_last_with_guid_found(recs: Seq<(Seq<char>, Seq<char>, Seq<u8>)>, g: Seq<char>, k: int)
    requires
        0 <= k < recs.len(),
        recs[k].1 == g,
    ensures
        last_with_guid(recs, g) matches Some(j) && 0 <= j < recs.len() && recs[j].1 == g,
    decreases recs.len(),
{
    if recs.last().1 != g {
        assert(k < recs.len() - 1);
        assert(recs.drop_last()[k] == recs[k]);
        lemma_last_with_guid_found(recs.drop_last(), g, k);
    }
}

/// The GUID of a pathname leads back to that pathname, wherever no GUID is
/// recorded for two different pathnames.
pub proof fn lemma_guid_leads_back_to_pathname(s: AssetSource, p: Seq<char>, g: Seq<char>)
    requires
        source_guid_spec(s, p) == Some(g),
        guids_name_one_pathname(source_records(s)),
    ensures
        pathname_for_guid_spec(source_records(s), g) == Some(p),
{
    let recs = source_records(s);
    lemma_last_with_pathname_found(recs, p);
    let i = last_with_pathname(recs, p)->0;
    assert(recs[i].1 == g);
    lemma_last_with_guid_found(recs, g, i);
    let j = last_with_guid(recs, g)->0;
    assert(recs[j].0 == recs[i].0);
}

/// Reading an asset by the GUID of a pathname reads what the pathname
/// reads, where that GUID leads back to the pathname: the same bytes, so
/// the same text.
pub proof fn lemma_read_by_guid_is_read_by_pathname(s: AssetSource, p: Seq<char>, g: Seq<char>)
    requires
        source_guid_spec(s, p) == Some(g),
        pathname_for_guid_spec(source_records(s), g) == Some(p),
    ensures
        source_guid_bytes_spec(s, g) == source_bytes_spec(s, p),
{
}

} // verus!

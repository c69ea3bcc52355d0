//! Save file viewer rules: the XML text's undo/redo history, the level a
//! `.contraption` file belongs to, line offsets in the XML text, and which
//! part layers the contraption preview draws.

use vstd::prelude::*;
use crate::crypto::{
    decrypt_save_file, decrypt_save_spec, detect_spec, encrypt_save_file, encrypt_save_spec,
    has_sha1_prefix_spec, label_key_spec, sha1_payload_spec, SaveFileType,
};
use crate::diagnostics::error::{AppError, AppErrorMessage};
use crate::data::level_db::{contraption_level_name, lookup_spec, ops_view, upper, LevelLookup};
use crate::text::{
    chars_to_string, contains, eq_lit, match_at, replace_all, replace_lit, starts_with, str_chars,
    strip_suffix, strip_suffix_lit,
};
use crate::data::assets::unitypackage_loader::{utf8_lossy, utf8_lossy_result};

verus! {

// ── XML history ──────────────────────────────────────

/// Snapshots kept for undo.
pub open spec fn undo_max() -> int {
    100
}

/// A save file open in the viewer: its detected type and that type's label
/// key, the decrypted XML text being edited with its undo and redo
/// snapshots and the snapshot taken when a text edit started, the error
/// that loading met, and the level a contraption belongs to.
pub struct SaveViewerData {
    pub file_type: Option<SaveFileType>,
    pub file_type_label: &'static str,
    pub xml_text: String,
    pub undo_stack: Vec<String>,
    pub redo_stack: Vec<String>,
    pub editing_snapshot: Option<String>,
    pub dirty: bool,
    pub error: Option<AppError>,
    pub level_name: Option<String>,
}

/// The history as plain values: (text, undo, redo, editing snapshot, dirty).
pub struct HistoryView {
    pub text: Seq<char>,
    pub undo: Seq<Seq<char>>,
    pub redo: Seq<Seq<char>>,
    pub snapshot: Option<Seq<char>>,
    pub dirty: bool,
}

pub open spec fn history_view(h: SaveViewerData) -> HistoryView {
    HistoryView {
        text: h.xml_text@,
        undo: h.undo_stack@.map_values(|s: String| s@),
        redo: h.redo_stack@.map_values(|s: String| s@),
        snapshot: match h.editing_snapshot {
            Some(s) => Some(s@),
            None => None,
        },
        dirty: h.dirty,
    }
}

/// What the history operations leave alone: the file type and its label,
/// the load error and the contraption's level.
pub open spec fn same_outside_history(a: SaveViewerData, b: SaveViewerData) -> bool {
    &&& a.file_type == b.file_type
    &&& a.file_type_label == b.file_type_label
    &&& a.error == b.error
    &&& a.level_name == b.level_name
}

/// A text edit starts: the text before it is kept as the editing snapshot,
/// unless an edit in progress already holds one.
pub open spec fn begin_edit_spec(h: HistoryView, before: Seq<char>) -> HistoryView {
    match h.snapshot {
        Some(_) => h,
        None => HistoryView { snapshot: Some(before), ..h },
    }
}

/// A text edit ends: its snapshot is dropped and, when the text changed
/// since, joins the undo snapshots (the oldest leaves past 100) and the
/// redo snapshots are dropped.
pub open spec fn commit_edit_spec(h: HistoryView) -> HistoryView {
    match h.snapshot {
        Some(snap) => if snap != h.text {
            let u = h.undo.push(snap);
            HistoryView {
                undo: if u.len() > undo_max() {
                    u.drop_first()
                } else {
                    u
                },
                redo: Seq::empty(),
                snapshot: None,
                ..h
            }
        } else {
            HistoryView { snapshot: None, ..h }
        },
        None => h,
    }
}

/// Before a change: the text joins the undo snapshots (the oldest leaves
/// past 100) and the redo snapshots are dropped.
pub open spec fn push_undo_spec(h: HistoryView) -> HistoryView {
    let u = h.undo.push(h.text);
    HistoryView {
        undo: if u.len() > undo_max() {
            u.drop_first()
        } else {
            u
        },
        redo: Seq::empty(),
        ..h
    }
}

/// Undo: an edit in progress reverts to where it started; else the last
/// undo snapshot comes back. The replaced text becomes a redo snapshot.
pub open spec fn undo_spec(h: HistoryView) -> HistoryView {
    match h.snapshot {
        Some(snap) => if snap != h.text {
            HistoryView { text: snap, redo: h.redo.push(h.text), snapshot: None, dirty: true, ..h }
        } else {
            undo_stack_spec(HistoryView { snapshot: None, ..h })
        },
        None => undo_stack_spec(h),
    }
}

pub open spec fn undo_stack_spec(h: HistoryView) -> HistoryView {
    if h.undo.len() > 0 {
        HistoryView {
            text: h.undo.last(),
            undo: h.undo.drop_last(),
            redo: h.redo.push(h.text),
            dirty: true,
            ..h
        }
    } else {
        h
    }
}

/// Redo: the last redo snapshot comes back and the replaced text becomes
/// an undo snapshot.
pub open spec fn redo_spec(h: HistoryView) -> HistoryView {
    if h.redo.len() > 0 {
        HistoryView {
            text: h.redo.last(),
            undo: h.undo.push(h.text),
            redo: h.redo.drop_last(),
            dirty: true,
            ..h
        }
    } else {
        h
    }
}

fn copy_string(s: &String) -> (r: String)
    ensures
        r@ == s@,
{
    let c = str_chars(s.as_str());
    chars_to_string(c.as_slice())
}

/// The error a failed decryption gives: a SHA-1 prefixed file shorter
/// than its digest, a digest that does not match, or else a failed AES
/// decryption.
pub open spec fn decrypt_error_spec(t: SaveFileType, data: Seq<u8>, e: AppError) -> bool {
    if has_sha1_prefix_spec(t) && data.len() < 20 {
        e == AppError::InvalidData(AppErrorMessage::Key("error_file_too_short_sha1"))
    } else if has_sha1_prefix_spec(t) && sha1_payload_spec(data) is None {
        e == AppError::InvalidData(AppErrorMessage::Key("error_sha1_mismatch"))
    } else {
        e matches AppError::Crypto(AppErrorMessage::Key1 { key: k, .. }) && k
            == "error_aes_decrypt_failed"
    }
}

/// The label key of a file type, `save_file_type_unknown` for none.
pub open spec fn label_spec(t: Option<SaveFileType>) -> &'static str {
    match t {
        Some(t) => label_key_spec(t),
        None => "save_file_type_unknown",
    }
}

impl SaveViewerData {
    /// Opens a save file: detects its type from the name, decrypts it and
    /// cleans the XML text, and resolves the level of a contraption. An
    /// unknown type, or a failed decryption, leaves the text empty and
    /// records the error. The decrypted text is not parsed here: its parse
    /// outcome goes to `record_parse`.
    pub fn load(lookup: &LevelLookup, file_name: &str, raw_data: &[u8]) -> (r: SaveViewerData)
        ensures
            r.file_type == detect_spec(file_name@),
            r.file_type_label == label_spec(r.file_type),
            history_view(r).undo.len() == 0,
            history_view(r).redo.len() == 0,
            history_view(r).snapshot is None,
            !history_view(r).dirty,
            match detect_spec(file_name@) {
                None => {
                    &&& r.xml_text@ == Seq::<char>::empty()
                    &&& r.error == Some(
                        AppError::InvalidData(AppErrorMessage::Key("error_unknown_file_type")),
                    )
                    &&& r.level_name is None
                },
                Some(t) => {
                    &&& match decrypt_save_spec(t, raw_data@) {
                        Some(xml) => {
                            &&& r.xml_text@ == clean_xml_spec(xml)
                            &&& vstd::utf8::valid_utf8(xml) ==> r.xml_text@ == clean_text_spec(
                                vstd::utf8::decode_utf8(xml),
                            )
                            &&& unedited_reexports(xml) ==> vstd::utf8::encode_utf8(r.xml_text@)
                                == xml
                            &&& r.error is None
                        },
                        None => r.xml_text@ == Seq::<char>::empty() && (r.error matches Some(e)
                            && decrypt_error_spec(t, raw_data@, e)),
                    }
                    &&& match r.level_name {
                        Some(n) => level_name_spec(*lookup, file_name@) == Some(n@),
                        None => level_name_spec(*lookup, file_name@) is None,
                    }
                },
            },
    {
        let file_type = match SaveFileType::detect(file_name) {
            Some(t) => t,
            None => {
                return SaveViewerData {
                    file_type: None,
                    file_type_label: localized_file_type_label(None),
                    xml_text: String::new(),
                    undo_stack: Vec::new(),
                    redo_stack: Vec::new(),
                    editing_snapshot: None,
                    dirty: false,
                    error: Some(AppError::invalid_data_key("error_unknown_file_type")),
                    level_name: None,
                };
            },
        };
        let label = localized_file_type_label(Some(file_type));
        let level_name = resolve_level_name(lookup, file_name);
        let (xml_text, error) = match decrypt_save_file(&file_type, raw_data) {
            Ok(xml_bytes) => {
                let text = clean_xml_text(xml_bytes.as_slice());
                proof {
                    if unedited_reexports(xml_bytes@) {
                        lemma_clean_text_keeps_clean_text(vstd::utf8::decode_utf8(xml_bytes@));
                        vstd::utf8::decode_utf8_encode_utf8(xml_bytes@);
                    }
                }
                (text, None)
            },
            Err(e) => (String::new(), Some(e)),
        };
        SaveViewerData {
            file_type: Some(file_type),
            file_type_label: label,
            xml_text,
            undo_stack: Vec::new(),
            redo_stack: Vec::new(),
            editing_snapshot: None,
            dirty: false,
            error,
            level_name,
        }
    }

    /// The XML text encrypted back to the save file format, or nothing for
    /// a file of unknown type.
    pub fn export_encrypted(&self) -> (r: Result<Option<Vec<u8>>, AppError>)
        requires
            vstd::utf8::encode_utf8(self.xml_text@).len() + 16 <= usize::MAX,
        ensures
            match self.file_type {
                None => r == Ok::<Option<Vec<u8>>, AppError>(None),
                Some(t) => r matches Ok(Some(data)) && data@ == encrypt_save_spec(
                    t,
                    vstd::utf8::encode_utf8(self.xml_text@),
                ),
            },
    {
        match self.file_type {
            None => Ok(None),
            Some(t) => {
                let bytes = self.xml_text.as_str().as_bytes();
                match encrypt_save_file(&t, bytes) {
                    Ok(data) => Ok(Some(data)),
                    Err(e) => Err(e),
                }
            },
        }
    }

    /// A freshly loaded text with no history.
    pub fn new(xml_text: String) -> (r: SaveViewerData)
        ensures
            history_view(r).text == xml_text@,
            history_view(r).undo.len() == 0,
            history_view(r).redo.len() == 0,
            history_view(r).snapshot is None,
            !history_view(r).dirty,
    {
        SaveViewerData {
            file_type: None,
            file_type_label: "save_file_type_unknown",
            xml_text,
            undo_stack: Vec::new(),
            redo_stack: Vec::new(),
            editing_snapshot: None,
            dirty: false,
            error: None,
            level_name: None,
        }
    }

    /// Push the current text onto the undo stack (call before a change).
    pub fn push_undo(&mut self)
        ensures
            history_view(*final(self)) == push_undo_spec(history_view(*old(self))),
            same_outside_history(*final(self), *old(self)),
    {
        let ghost before = history_view(*self);
        let t = copy_string(&self.xml_text);
        self.undo_stack.push(t);
        if self.undo_stack.len() > 100 {
            self.undo_stack.remove(0);
        }
        self.redo_stack.clear();
        proof {
            let u = before.undo.push(before.text);
            if u.len() > undo_max() {
                assert(history_view(*self).undo =~= u.drop_first());
            } else {
                assert(history_view(*self).undo =~= u);
            }
            assert(history_view(*self).redo =~= Seq::<Seq<char>>::empty());
        }
    }

    /// Undo the last change; `true` when the text changed, so the
    /// structured view must be parsed again and the outcome handed to
    /// `record_parse` (this leaves the error as it was).
    pub fn undo(&mut self) -> (changed: bool)
        ensures
            history_view(*final(self)) == undo_spec(history_view(*old(self))),
            same_outside_history(*final(self), *old(self)),
            changed == (history_view(*old(self)).undo.len() > 0 || (history_view(*old(self)).snapshot matches Some(s) && s != history_view(*old(self)).text)),
    {
        let ghost before = history_view(*self);
        let snap = self.editing_snapshot.take();
        match snap {
            Some(s) => {
                let sc = str_chars(s.as_str());
                let tc = str_chars(self.xml_text.as_str());
                if !crate::text::chars_eq(sc.as_slice(), tc.as_slice()) {
                    let old_text = copy_string(&self.xml_text);
                    self.redo_stack.push(old_text);
                    self.xml_text = s;
                    self.dirty = true;
                    assert(history_view(*self).redo =~= before.redo.push(before.text));
                    return true;
                }
            },
            None => {},
        }
        self.undo_from_stack()
    }

    fn undo_from_stack(&mut self) -> (changed: bool)
        ensures
            history_view(*final(self)) == undo_stack_spec(history_view(*old(self))),
            same_outside_history(*final(self), *old(self)),
            changed == (history_view(*old(self)).undo.len() > 0),
    {
        let ghost before = history_view(*self);
        match self.undo_stack.pop() {
            Some(prev) => {
                let old_text = copy_string(&self.xml_text);
                self.redo_stack.push(old_text);
                self.xml_text = prev;
                self.dirty = true;
                assert(history_view(*self).undo =~= before.undo.drop_last());
                assert(history_view(*self).redo =~= before.redo.push(before.text));
                true
            },
            None => {
                assert(history_view(*self).undo =~= before.undo);
                false
            },
        }
    }

    /// Redo the last undone change; `true` when the text changed, so the
    /// structured view must be parsed again and the outcome handed to
    /// `record_parse` (this leaves the error as it was).
    pub fn redo(&mut self) -> (changed: bool)
        ensures
            history_view(*final(self)) == redo_spec(history_view(*old(self))),
            same_outside_history(*final(self), *old(self)),
            changed == (history_view(*old(self)).redo.len() > 0),
    {
        let ghost before = history_view(*self);
        match self.redo_stack.pop() {
            Some(next) => {
                let old_text = copy_string(&self.xml_text);
                self.undo_stack.push(old_text);
                self.xml_text = next;
                self.dirty = true;
                assert(history_view(*self).redo =~= before.redo.drop_last());
                assert(history_view(*self).undo =~= before.undo.push(before.text));
                true
            },
            None => {
                assert(history_view(*self).redo =~= before.redo);
                false
            },
        }
    }

    /// A text edit changed the text: the text before it becomes the editing
    /// snapshot, unless the edit in progress already has one.
    pub fn begin_edit(&mut self, before_edit: String)
        ensures
            history_view(*final(self)) == begin_edit_spec(history_view(*old(self)), before_edit@),
            same_outside_history(*final(self), *old(self)),
    {
        if self.editing_snapshot.is_none() {
            self.editing_snapshot = Some(before_edit);
        }
    }

    /// The text editor lost focus: the edit in progress ends, and its
    /// snapshot becomes an undo snapshot when the text changed since.
    pub fn commit_edit_snapshot(&mut self)
        ensures
            history_view(*final(self)) == commit_edit_spec(history_view(*old(self))),
            same_outside_history(*final(self), *old(self)),
    {
        let ghost before = history_view(*self);
        let snap = self.editing_snapshot.take();
        match snap {
            Some(s) => {
                let sc = str_chars(s.as_str());
                let tc = str_chars(self.xml_text.as_str());
                if !crate::text::chars_eq(sc.as_slice(), tc.as_slice()) {
                    self.undo_stack.push(s);
                    if self.undo_stack.len() > 100 {
                        self.undo_stack.remove(0);
                    }
                    self.redo_stack.clear();
                    proof {
                        let u = before.undo.push(before.snapshot->0);
                        if u.len() > undo_max() {
                            assert(history_view(*self).undo =~= u.drop_first());
                        } else {
                            assert(history_view(*self).undo =~= u);
                        }
                        assert(history_view(*self).redo =~= Seq::<Seq<char>>::empty());
                    }
                } else {
                    assert(history_view(*self).undo =~= before.undo);
                    assert(history_view(*self).redo =~= before.redo);
                }
            },
            None => {},
        }
    }

    /// Records the outcome of parsing the text again, as the viewer does
    /// after loading and after every undo or redo that changed the text:
    /// for a file of known type the parse error (or none) becomes the
    /// error; a file of unknown type keeps its own. The structured save
    /// parser itself is not part of this library; its caller hands the
    /// outcome here.
    pub fn record_parse(&mut self, parse_error: Option<AppError>)
        ensures
            history_view(*final(self)) == history_view(*old(self)),
            final(self).file_type == old(self).file_type,
            final(self).file_type_label == old(self).file_type_label,
            final(self).level_name == old(self).level_name,
            final(self).error == (if old(self).file_type is Some {
                parse_error
            } else {
                old(self).error
            }),
    {
        if self.file_type.is_some() {
            self.error = parse_error;
        }
    }

    pub fn can_undo(&self) -> (r: bool)
        ensures
            r == (history_view(*self).snapshot is Some || history_view(*self).undo.len() > 0),
    {
        self.editing_snapshot.is_some() || self.undo_stack.len() > 0
    }

    pub fn can_redo(&self) -> (r: bool)
        ensures
            r == (history_view(*self).redo.len() > 0),
    {
        self.redo_stack.len() > 0
    }
}

/// Undoing an edit made after `push_undo` brings the text back, and redoing
/// it brings the edit back.
pub proof fn lemma_undo_then_redo_restores(h: HistoryView, edited: Seq<char>)
    requires
        h.snapshot is None,
    ensures
        undo_spec(HistoryView { text: edited, ..push_undo_spec(h) }).text == h.text,
        redo_spec(undo_spec(HistoryView { text: edited, ..push_undo_spec(h) })).text == edited,
{
}

/// Undo and redo are inverse: after an undo that changed something, a redo
/// restores the text and the undo snapshots (with no edit in progress).
pub proof fn lemma_redo_inverts_undo(h: HistoryView)
    requires
        h.snapshot is None,
        h.undo.len() > 0,
    ensures
        redo_spec(undo_spec(h)).text == h.text,
        redo_spec(undo_spec(h)).undo == h.undo,
        redo_spec(undo_spec(h)).redo == h.redo,
{
    assert(h.undo.drop_last().push(h.undo.last()) =~= h.undo);
    assert(h.redo.push(h.text).drop_last() =~= h.redo);
}

/// The undo history never holds more than 100 snapshots.
pub proof fn lemma_undo_history_is_bounded(h: HistoryView)
    requires
        h.undo.len() <= undo_max(),
    ensures
        push_undo_spec(h).undo.len() <= undo_max(),
        undo_spec(h).undo.len() <= undo_max(),
{
}

/// The history with its text replaced, as a text edit leaves it.
pub open spec fn with_text(h: HistoryView, text: Seq<char>) -> HistoryView {
    HistoryView { text, ..h }
}

/// A text edit session, started on the current text and committed after it
/// changed the text, leaves the same history as `push_undo` before the
/// change; and undo then brings the text before the session back.
pub proof fn lemma_edit_session_commits_like_push_undo(h: HistoryView, edited: Seq<char>)
    requires
        h.snapshot is None,
        edited != h.text,
    ensures
        commit_edit_spec(with_text(begin_edit_spec(h, h.text), edited)) == with_text(
            push_undo_spec(h),
            edited,
        ),
        undo_spec(commit_edit_spec(with_text(begin_edit_spec(h, h.text), edited))).text == h.text,
{
}

/// An edit session that ends on the text it started from leaves the undo
/// and redo snapshots as they were.
pub proof fn lemma_unchanged_edit_session_keeps_history(h: HistoryView)
    requires
        h.snapshot is None,
    ensures
        commit_edit_spec(begin_edit_spec(h, h.text)) == h,
{
}

/// Save XML text as the viewer shows it: without a leading byte order
/// mark, with `\r\n` and lone `\r` turned into `\n`.
pub open spec fn clean_text_spec(t: Seq<char>) -> Seq<char> {
    let u = if t.len() > 0 && t[0] == '\u{feff}' {
        t.drop_first()
    } else {
        t
    };
    replace_all(replace_all(u, "\r\n"@, "\n"@), "\r"@, "\n"@)
}

/// Decrypted save XML as the viewer shows it: decoded leniently, then
/// cleaned.
pub open spec fn clean_xml_spec(bytes: Seq<u8>) -> Seq<char> {
    clean_text_spec(utf8_lossy_result(bytes))
}

pub fn clean_xml_text(bytes: &[u8]) -> (r: String)
    ensures
        r@ == clean_xml_spec(bytes@),
        vstd::utf8::valid_utf8(bytes@) ==> r@ == clean_text_spec(vstd::utf8::decode_utf8(bytes@)),
{
    proof {
        reveal_strlit("\r\n");
        reveal_strlit("\r");
    }
    let t = utf8_lossy(bytes);
    let c = str_chars(t.as_str());
    let u = if c.len() > 0 && c[0] == '\u{feff}' {
        crate::text::copy_range(c.as_slice(), 1, c.len())
    } else {
        crate::text::copy_range(c.as_slice(), 0, c.len())
    };
    assert(c@.subrange(1, c@.len() as int) =~= c@.drop_first());
    assert(c@.subrange(0, c@.len() as int) =~= c@);
    let v = replace_lit(u.as_slice(), "\r\n", "\n");
    let w = replace_lit(v.as_slice(), "\r", "\n");
    chars_to_string(w.as_slice())
}

/// Text with no carriage return and no leading byte order mark comes
/// through cleaning unchanged.
pub proof fn lemma_clean_text_keeps_clean_text(t: Seq<char>)
    requires
        !t.contains('\r'),
        !(t.len() > 0 && t[0] == '\u{feff}'),
    ensures
        clean_text_spec(t) == t,
{
    reveal_strlit("\r\n");
    reveal_strlit("\r");
    crate::text::lemma_replace_all_absent_first(t, "\r\n"@, "\n"@);
    crate::text::lemma_replace_all_absent_first(t, "\r"@, "\n"@);
}

/// XML that the viewer shows and exports unchanged: valid UTF-8 with no
/// carriage return and no leading byte order mark.
pub open spec fn unedited_reexports(xml: Seq<u8>) -> bool {
    &&& vstd::utf8::valid_utf8(xml)
    &&& !vstd::utf8::decode_utf8(xml).contains('\r')
    &&& !(vstd::utf8::decode_utf8(xml).len() > 0 && vstd::utf8::decode_utf8(xml)[0] == '\u{feff}')
}

/// Re-encrypting an unedited save reproduces it byte for byte. Let `enc`
/// be the save file that `encrypt_save_file` makes of `xml` (so it
/// decrypts to `xml`), where `xml` is valid UTF-8 with no carriage return
/// and no leading byte order mark, and let `d` be what `load` makes of
/// `enc`: then `d`'s text encodes back to `xml`, and `export_encrypted`
/// gives `enc` again.
pub proof fn lemma_unedited_save_exports_unchanged(
    t: SaveFileType,
    xml: Seq<u8>,
    enc: Seq<u8>,
    d: SaveViewerData,
)
    requires
        enc == encrypt_save_spec(t, xml),
        decrypt_save_spec(t, enc) == Some(xml),
        d.file_type == Some(t),
        vstd::utf8::valid_utf8(xml) ==> d.xml_text@ == clean_text_spec(
            vstd::utf8::decode_utf8(xml),
        ),
        unedited_reexports(xml),
    ensures
        vstd::utf8::encode_utf8(d.xml_text@) == xml,
        encrypt_save_spec(t, vstd::utf8::encode_utf8(d.xml_text@)) == enc,
{
    lemma_clean_text_keeps_clean_text(vstd::utf8::decode_utf8(xml));
    vstd::utf8::decode_utf8_encode_utf8(xml);
}

/// The XML line of a structured entry: entries start on line 3 of a
/// contraption and on line 2 otherwise.
pub fn xml_entry_line(file_type: Option<SaveFileType>, entry_idx: usize) -> (r: usize)
    requires
        entry_idx <= usize::MAX - 3,
    ensures
        r == entry_idx + (if file_type == Some(SaveFileType::Contraption) {
            3int
        } else {
            2int
        }),
{
    match file_type {
        Some(SaveFileType::Contraption) => entry_idx + 3,
        _ => entry_idx + 2,
    }
}

/// The char offset where line `n` of a text starts: just past its `n`-th
/// newline, or the text's length when it has fewer.
pub open spec fn line_offset_spec(s: Seq<char>, n: nat) -> nat
    decreases s.len(),
{
    if n == 0 || s.len() == 0 {
        0
    } else if s[0] == '\n' {
        1 + line_offset_spec(s.drop_first(), (n - 1) as nat)
    } else {
        1 + line_offset_spec(s.drop_first(), n)
    }
}

pub fn char_offset_of_line(text: &str, target_line: usize) -> (r: usize)
    ensures
        r == line_offset_spec(text@, target_line as nat),
{
    let s = str_chars(text);
    let mut line: usize = 0;
    let mut i: usize = 0;
    assert(s@.skip(0) =~= s@);
    while i < s.len()
        invariant
            s@ == text@,
            i <= s@.len(),
            line <= target_line,
            line_offset_spec(text@, target_line as nat) == i + line_offset_spec(
                s@.skip(i as int),
                (target_line - line) as nat,
            ),
        decreases s.len() - i,
    {
        if line == target_line {
            return i;
        }
        assert(s@.skip(i as int).drop_first() =~= s@.skip(i + 1));
        if s[i] == '\n' {
            line = line + 1;
        }
        i = i + 1;
    }
    i
}

/// The name the viewer gives a `.contraption` (or `.CONTRAPTION`) file:
/// its level scene, with the level label in brackets when it has one.
pub open spec fn level_name_spec(lookup: LevelLookup, file_name: Seq<char>) -> Option<Seq<char>> {
    let stem = match strip_suffix(file_name, ".contraption"@) {
        Some(s) => Some(s),
        None => strip_suffix(file_name, ".CONTRAPTION"@),
    };
    match stem {
        Some(s) => match lookup_spec(ops_view(lookup), upper(s)) {
            Some((label, scene)) => if label.len() == 0 {
                Some(scene)
            } else {
                Some(scene + " ("@ + label + ")"@)
            },
            None => None,
        },
        None => None,
    }
}

pub fn resolve_level_name(lookup: &LevelLookup, file_name: &str) -> (r: Option<String>)
    ensures
        match r {
            Some(n) => level_name_spec(*lookup, file_name@) == Some(n@),
            None => level_name_spec(*lookup, file_name@) is None,
        },
{
    let f = str_chars(file_name);
    let stem = match strip_suffix_lit(f.as_slice(), ".contraption") {
        Some(s) => s,
        None => match strip_suffix_lit(f.as_slice(), ".CONTRAPTION") {
            Some(s) => s,
            None => {
                return None;
            },
        },
    };
    let ss = chars_to_string(stem.as_slice());
    match contraption_level_name(lookup, ss.as_str()) {
        Some((label, scene)) => {
            if label.unicode_len() == 0 {
                Some(scene)
            } else {
                let mut out = str_chars(scene.as_str());
                let ghost start = out@;
                let open = str_chars(" (");
                let lc = str_chars(label.as_str());
                let close = str_chars(")");
                let mut parts: Vec<Vec<char>> = Vec::new();
                parts.push(open);
                parts.push(lc);
                parts.push(close);
                let mut k: usize = 0;
                while k < 3
                    invariant
                        k <= 3,
                        parts@.len() == 3,
                        parts@[0]@ == " ("@,
                        parts@[1]@ == label@,
                        parts@[2]@ == ")"@,
                        out@ == start + (if k == 0 {
                            Seq::<char>::empty()
                        } else if k == 1 {
                            " ("@
                        } else if k == 2 {
                            " ("@ + label@
                        } else {
                            " ("@ + label@ + ")"@
                        }),
                    decreases 3 - k,
                {
                    let piece = &parts[k];
                    let ghost before = out@;
                    let mut j: usize = 0;
                    while j < piece.len()
                        invariant
                            j <= piece@.len(),
                            out@ == before + piece@.take(j as int),
                        decreases piece.len() - j,
                    {
                        out.push(piece[j]);
                        j = j + 1;
                        assert(out@ =~= before + piece@.take(j as int));
                    }
                    assert(piece@.take(j as int) =~= piece@);
                    k = k + 1;
                    assert(out@ =~= start + (if k == 0 {
                        Seq::<char>::empty()
                    } else if k == 1 {
                        " ("@
                    } else if k == 2 {
                        " ("@ + label@
                    } else {
                        " ("@ + label@ + ")"@
                    }));
                }
                Some(chars_to_string(out.as_slice()))
            }
        },
        None => None,
    }
}

/// The locale key of a file type's label, `save_file_type_unknown` for an
/// unknown type.
pub fn localized_file_type_label(file_type: Option<SaveFileType>) -> (r: &'static str)
    ensures
        r == (match file_type {
            Some(t) => label_key_spec(t),
            None => "save_file_type_unknown",
        }),
{
    match file_type {
        Some(t) => t.localized_label(),
        None => "save_file_type_unknown",
    }
}


// ── Contraption preview ──────────────────────────────

/// Display names of the part types, by type number.
pub open spec fn part_type_names() -> Seq<&'static str> {
    seq![
        "Unknown",
        "Balloon",
        "Balloons2",
        "Balloons3",
        "Fan",
        "WoodenFrame",
        "Bellows",
        "CartWheel",
        "Basket",
        "Sandbag",
        "Pig",
        "Sandbag2",
        "Sandbag3",
        "Propeller",
        "Wings",
        "Tailplane",
        "Engine",
        "Rocket",
        "MetalFrame",
        "SmallWheel",
        "MetalWing",
        "MetalTail",
        "Rotor",
        "MotorWheel",
        "TNT",
        "EngineSmall",
        "EngineBig",
        "NormalWheel",
        "Spring",
        "Umbrella",
        "Rope",
        "CokeBottle",
        "KingPig",
        "RedRocket",
        "SodaBottle",
        "PoweredUmbrella",
        "Egg",
        "JetEngine",
        "ObsoleteWheel",
        "SpringBoxingGlove",
        "StickyWheel",
        "GrapplingHook",
        "Pumpkin",
        "Kicker",
        "Gearbox",
        "GoldenPig",
        "PointLight",
        "SpotLight",
        "TimeBomb",
    ]
}

/// Part type number to display name; `?` for an unknown number.
pub fn part_type_name(part_type: i32) -> (r: &'static str)
    ensures
        0 <= part_type < part_type_names().len() ==> r == part_type_names()[part_type as int],
        !(0 <= part_type < part_type_names().len()) ==> r == "?",
{
    let names: [&'static str; 49] = [
        "Unknown",
        "Balloon",
        "Balloons2",
        "Balloons3",
        "Fan",
        "WoodenFrame",
        "Bellows",
        "CartWheel",
        "Basket",
        "Sandbag",
        "Pig",
        "Sandbag2",
        "Sandbag3",
        "Propeller",
        "Wings",
        "Tailplane",
        "Engine",
        "Rocket",
        "MetalFrame",
        "SmallWheel",
        "MetalWing",
        "MetalTail",
        "Rotor",
        "MotorWheel",
        "TNT",
        "EngineSmall",
        "EngineBig",
        "NormalWheel",
        "Spring",
        "Umbrella",
        "Rope",
        "CokeBottle",
        "KingPig",
        "RedRocket",
        "SodaBottle",
        "PoweredUmbrella",
        "Egg",
        "JetEngine",
        "ObsoleteWheel",
        "SpringBoxingGlove",
        "StickyWheel",
        "GrapplingHook",
        "Pumpkin",
        "Kicker",
        "Gearbox",
        "GoldenPig",
        "PointLight",
        "SpotLight",
        "TimeBomb",
    ];
    assert(names@ =~= part_type_names());
    if 0 <= part_type && part_type < 49 {
        names[part_type as usize]
    } else {
        "?"
    }
}

/// A grid cell that holds a part.
pub open spec fn occupied_at(o: Seq<(i32, i32)>, x: int, y: int) -> bool {
    exists|k: int| 0 <= k < o.len() && o[k].0 == x && o[k].1 == y
}

/// Grid step of a direction (Right, Up, Left, Down, by number mod 4).
pub open spec fn dir_dx(d: int) -> int {
    if d % 4 == 0 {
        1
    } else if d % 4 == 2 {
        -1
    } else {
        0
    }
}

pub open spec fn dir_dy(d: int) -> int {
    if d % 4 == 1 {
        1
    } else if d % 4 == 3 {
        -1
    } else {
        0
    }
}

/// A neighbour in direction `dir` once the part's rotation is applied.
pub open spec fn rotated_has(o: Seq<(i32, i32)>, x: int, y: int, dir: int, rot: int) -> bool {
    occupied_at(o, x + dir_dx(dir + rot), y + dir_dy(dir + rot))
}

/// Whether a part layer shows, as the game decides from the part's
/// neighbours: wing frames, rocket and TNT attachments, the boxing glove's
/// hidden spring, and the eight attachments of grappling hooks and spot
/// lights (diagonal ones only at diagonal rotations).
pub open spec fn layer_visible_spec(
    part_type: int,
    x: int,
    y: int,
    rot: int,
    name: Seq<char>,
    o: Seq<(i32, i32)>,
) -> bool {
    if part_type == 14 {
        let up = occupied_at(o, x, y + 1);
        let down = occupied_at(o, x, y - 1);
        let left = occupied_at(o, x - 1, y);
        let right = occupied_at(o, x + 1, y);
        if name == "TopFrameSprite"@ {
            up || left || right
        } else if name == "BottomFrameSprite"@ {
            (down || left || right) || !(up || left || right)
        } else {
            true
        }
    } else if part_type == 17 || part_type == 24 {
        let up = rotated_has(o, x, y, 1, rot);
        let down = rotated_has(o, x, y, 3, rot);
        let left = rotated_has(o, x, y, 2, rot);
        let right = rotated_has(o, x, y, 0, rot);
        if name == "LeftAttachment"@ {
            left
        } else if name == "RightAttachment"@ {
            right
        } else if name == "TopAttachment"@ {
            up
        } else if name == "BottomAttachment"@ {
            down || (part_type == 17 && !up && !left && !right)
        } else {
            true
        }
    } else if part_type == 39 {
        name != "SpringVisualization"@
    } else if part_type == 41 || part_type == 47 {
        if part_type == 41 && name == "SpringVisualization"@ {
            false
        } else {
            let up = rotated_has(o, x, y, 1, rot);
            let down = rotated_has(o, x, y, 3, rot);
            let left = rotated_has(o, x, y, 2, rot);
            let right = rotated_has(o, x, y, 0, rot);
            let up_left = rotated_has(o, x, y, 5, rot);
            let down_left = rotated_has(o, x, y, 6, rot);
            let up_right = rotated_has(o, x, y, 4, rot);
            let down_right = rotated_has(o, x, y, 7, rot);
            let diag = 4 <= rot <= 7;
            if name == "LeftAttachment"@ {
                left && !diag
            } else if name == "RightAttachment"@ {
                right && !diag
            } else if name == "TopAttachment"@ {
                up && !diag
            } else if name == "BottomAttachment"@ {
                (down && !diag) || (!up && !left && !right && !diag) || !(up || down_left || left
                    || right || up_left || up_right || down_right)
            } else if name == "BottomLeftAttachment"@ {
                down_left && diag
            } else if name == "BottomRightAttachment"@ {
                down_right && diag
            } else if name == "TopLeftAttachment"@ {
                up_left && diag
            } else if name == "TopRightAttachment"@ {
                up_right && diag
            } else {
                true
            }
        }
    } else {
        true
    }
}

/// The part types whose layers look at the neighbouring cells.
pub open spec fn reads_neighbours(part_type: int) -> bool {
    part_type == 14 || part_type == 17 || part_type == 24 || part_type == 41 || part_type == 47
}

/// The highest direction a part type looks at, before rotation: the four
/// sides for rockets and TNT, the diagonals too for grappling hooks and
/// spot lights.
pub open spec fn rotated_dirs(part_type: int) -> int {
    if part_type == 17 || part_type == 24 {
        3
    } else {
        7
    }
}

/// The part types whose layers look at rotated directions.
pub open spec fn reads_rotation(part_type: int, name: Seq<char>) -> bool {
    part_type == 17 || part_type == 24 || part_type == 47 || (part_type == 41 && name
        != "SpringVisualization"@)
}

fn occupied_exec(o: &[(i32, i32)], x: i32, y: i32) -> (r: bool)
    ensures
        r == occupied_at(o@, x as int, y as int),
{
    let mut k: usize = 0;
    while k < o.len()
        invariant
            k <= o@.len(),
            forall|m: int| 0 <= m < k ==> !(o@[m].0 == x && o@[m].1 == y),
        decreases o.len() - k,
    {
        if o[k].0 == x && o[k].1 == y {
            return true;
        }
        k = k + 1;
    }
    false
}

fn rotated_has_exec(o: &[(i32, i32)], x: i32, y: i32, dir: i32, rot: i32) -> (r: bool)
    requires
        0 <= dir <= 7,
        0 <= rot <= i32::MAX - dir,
        i32::MIN < x < i32::MAX,
        i32::MIN < y < i32::MAX,
    ensures
        r == rotated_has(o@, x as int, y as int, dir as int, rot as int),
{
    let d = (dir + rot) % 4;
    let (dx, dy): (i32, i32) = if d == 0 {
        (1, 0)
    } else if d == 1 {
        (0, 1)
    } else if d == 2 {
        (-1, 0)
    } else {
        (0, -1)
    };
    occupied_exec(o, x + dx, y + dy)
}

/// Whether a layer of a part shows in the contraption preview, given the
/// cells that hold parts.
pub fn layer_visible(
    part_type: i32,
    x: i32,
    y: i32,
    rot: i32,
    name: &str,
    occupied: &[(i32, i32)],
) -> (r: bool)
    requires
        reads_neighbours(part_type as int) ==> i32::MIN < x < i32::MAX && i32::MIN < y < i32::MAX,
        reads_rotation(part_type as int, name@) ==> 0 <= rot <= i32::MAX - rotated_dirs(
            part_type as int,
        ),
    ensures
        r == layer_visible_spec(part_type as int, x as int, y as int, rot as int, name@, occupied@),
{
    let n = str_chars(name);
    let n = n.as_slice();
    if part_type == 14 {
        let up = occupied_exec(occupied, x, y + 1);
        let down = occupied_exec(occupied, x, y - 1);
        let left = occupied_exec(occupied, x - 1, y);
        let right = occupied_exec(occupied, x + 1, y);
        if eq_lit(n, "TopFrameSprite") {
            up || left || right
        } else if eq_lit(n, "BottomFrameSprite") {
            (down || left || right) || !(up || left || right)
        } else {
            true
        }
    } else if part_type == 17 || part_type == 24 {
        let up = rotated_has_exec(occupied, x, y, 1, rot);
        let down = rotated_has_exec(occupied, x, y, 3, rot);
        let left = rotated_has_exec(occupied, x, y, 2, rot);
        let right = rotated_has_exec(occupied, x, y, 0, rot);
        if eq_lit(n, "LeftAttachment") {
            left
        } else if eq_lit(n, "RightAttachment") {
            right
        } else if eq_lit(n, "TopAttachment") {
            up
        } else if eq_lit(n, "BottomAttachment") {
            down || (part_type == 17 && !up && !left && !right)
        } else {
            true
        }
    } else if part_type == 39 {
        !eq_lit(n, "SpringVisualization")
    } else if part_type == 41 || part_type == 47 {
        if part_type == 41 && eq_lit(n, "SpringVisualization") {
            return false;
        }
        let up = rotated_has_exec(occupied, x, y, 1, rot);
        let down = rotated_has_exec(occupied, x, y, 3, rot);
        let left = rotated_has_exec(occupied, x, y, 2, rot);
        let right = rotated_has_exec(occupied, x, y, 0, rot);
        let up_left = rotated_has_exec(occupied, x, y, 5, rot);
        let down_left = rotated_has_exec(occupied, x, y, 6, rot);
        let up_right = rotated_has_exec(occupied, x, y, 4, rot);
        let down_right = rotated_has_exec(occupied, x, y, 7, rot);
        let diag = rot >= 4 && rot <= 7;
        if eq_lit(n, "LeftAttachment") {
            left && !diag
        } else if eq_lit(n, "RightAttachment") {
            right && !diag
        } else if eq_lit(n, "TopAttachment") {
            up && !diag
        } else if eq_lit(n, "BottomAttachment") {
            let visible = (down && !diag) || (!up && !left && !right && !diag);
            // with no connection at all the bottom attachment still shows
            let any = up || down_left || left || right || up_left || up_right || down_right;
            visible || !any
        } else if eq_lit(n, "BottomLeftAttachment") {
            down_left && diag
        } else if eq_lit(n, "BottomRightAttachment") {
            down_right && diag
        } else if eq_lit(n, "TopLeftAttachment") {
            up_left && diag
        } else if eq_lit(n, "TopRightAttachment") {
            up_right && diag
        } else {
            true
        }
    } else {
        true
    }
}


// ── Laws of the viewer's rules ───────────────────────

/// A `.contraption` (or `.CONTRAPTION`) file whose stem the lookup knows is
/// named after its level: the scene alone when the level has no label, and
/// `scene (label)` otherwise; a stem the lookup does not know gives no name.
pub proof fn lemma_known_stem_names_its_scene(lookup: LevelLookup, stem: Seq<char>)
    ensures
        lookup_spec(ops_view(lookup), upper(stem)) matches Some((label, scene)) ==> {
            &&& level_name_spec(lookup, stem + ".contraption"@) matches Some(n)
            &&& starts_with(n, scene)
            &&& label.len() == 0 ==> n == scene
            &&& label.len() > 0 ==> n == scene + " ("@ + label + ")"@ && contains(n, label)
        },
        lookup_spec(ops_view(lookup), upper(stem)) is None ==> level_name_spec(
            lookup,
            stem + ".contraption"@,
        ) is None,
        level_name_spec(lookup, stem + ".CONTRAPTION"@) == level_name_spec(
            lookup,
            stem + ".contraption"@,
        ),
{
    reveal_strlit(".contraption");
    reveal_strlit(".CONTRAPTION");
    reveal_strlit(" (");
    reveal_strlit(")");
    let f = stem + ".contraption"@;
    assert(f.subrange(f.len() - ".contraption"@.len(), f.len() as int) =~= ".contraption"@);
    assert(f.subrange(0, f.len() - ".contraption"@.len()) =~= stem);
    assert(strip_suffix(f, ".contraption"@) == Some(stem));
    let g = stem + ".CONTRAPTION"@;
    assert(g.subrange(g.len() - ".CONTRAPTION"@.len(), g.len() as int) =~= ".CONTRAPTION"@);
    assert(g.subrange(0, g.len() - ".CONTRAPTION"@.len()) =~= stem);
    assert(g.subrange(g.len() - 12, g.len() as int)[1] == 'C');
    assert(strip_suffix(g, ".contraption"@) is None);
    assert(strip_suffix(g, ".CONTRAPTION"@) == Some(stem));
    match lookup_spec(ops_view(lookup), upper(stem)) {
        Some((label, scene)) => {
            if label.len() == 0 {
                assert(scene.subrange(0, scene.len() as int) =~= scene);
            } else {
                let n = scene + " ("@ + label + ")"@;
                assert(n.subrange(0, scene.len() as int) =~= scene);
                let i: int = scene.len() as int + 2;
                assert(n.subrange(i, i + label.len()) =~= label);
                assert(match_at(n, label, i));
                crate::text::lemma_match_at_found(n, label, i);
            }
        },
        None => {},
    }
}

/// The neighbour cells of a part as seen in a mirror through `x == 0`.
pub open spec fn mirrored(o: Seq<(i32, i32)>) -> Seq<(i32, i32)> {
    o.map_values(|p: (i32, i32)| ((-p.0) as i32, p.1))
}

proof fn lemma_mirrored_occupied(o: Seq<(i32, i32)>, x: int, y: int)
    requires
        forall|k: int| 0 <= k < o.len() ==> (#[trigger] o[k]).0 != i32::MIN,
    ensures
        occupied_at(mirrored(o), -x, y) == occupied_at(o, x, y),
{
    let m = mirrored(o);
    if occupied_at(o, x, y) {
        let k = choose|k: int| 0 <= k < o.len() && o[k].0 == x && o[k].1 == y;
        assert(m[k].0 == -x && m[k].1 == y);
    }
    if occupied_at(m, -x, y) {
        let k = choose|k: int| 0 <= k < m.len() && m[k].0 == -x && m[k].1 == y;
        assert(o[k].0 != i32::MIN);
        assert(m[k].0 == -o[k].0);
    }
}

/// Wing frames treat left and right alike: mirroring the part and its
/// neighbours through a vertical line shows the same frames. The top frame
/// shows exactly when a neighbour is above, left or right; the bottom frame
/// when one is below, left or right, or when none is above, left or right.
pub proof fn lemma_wing_frames_follow_neighbours(
    x: int,
    y: int,
    rot: int,
    name: Seq<char>,
    o: Seq<(i32, i32)>,
)
    requires
        forall|k: int| 0 <= k < o.len() ==> (#[trigger] o[k]).0 != i32::MIN,
    ensures
        layer_visible_spec(14, x, y, rot, name, o) == layer_visible_spec(
            14,
            -x,
            y,
            rot,
            name,
            mirrored(o),
        ),
        layer_visible_spec(14, x, y, rot, "TopFrameSprite"@, o) == (occupied_at(o, x, y + 1)
            || occupied_at(o, x - 1, y) || occupied_at(o, x + 1, y)),
        layer_visible_spec(14, x, y, rot, "BottomFrameSprite"@, o) == (occupied_at(o, x, y - 1)
            || occupied_at(o, x - 1, y) || occupied_at(o, x + 1, y) || !(occupied_at(o, x, y + 1)
            || occupied_at(o, x - 1, y) || occupied_at(o, x + 1, y))),
{
    reveal_strlit("TopFrameSprite");
    reveal_strlit("BottomFrameSprite");
    assert("BottomFrameSprite"@.len() != "TopFrameSprite"@.len());
    lemma_mirrored_occupied(o, x, y + 1);
    lemma_mirrored_occupied(o, x, y - 1);
    lemma_mirrored_occupied(o, x - 1, y);
    lemma_mirrored_occupied(o, x + 1, y);
    assert(-(x - 1) == -x + 1);
    assert(-(x + 1) == -x - 1);
}


/// The neighbouring cell a part faces after `turns` quarter turns
/// counter-clockwise from facing right.
pub open spec fn facing_cell(x: int, y: int, turns: int) -> (int, int) {
    let t = turns % 4;
    if t == 0 {
        (x + 1, y)
    } else if t == 1 {
        (x, y + 1)
    } else if t == 2 {
        (x - 1, y)
    } else {
        (x, y - 1)
    }
}

pub open spec fn occupied_cell(o: Seq<(i32, i32)>, c: (int, int)) -> bool {
    occupied_at(o, c.0, c.1)
}

/// Rocket and TNT attachments turn with the part: the right attachment
/// shows towards the cell the part faces, the top one a quarter turn on,
/// the left one half a turn on, and the bottom one three quarters on (a
/// rocket also keeps its bottom attachment when nothing is on the other
/// three sides).
pub proof fn lemma_rotated_attachments(
    part_type: int,
    x: int,
    y: int,
    rot: int,
    o: Seq<(i32, i32)>,
)
    requires
        part_type == 17 || part_type == 24,
        rot >= 0,
    ensures
        layer_visible_spec(part_type, x, y, rot, "RightAttachment"@, o) == occupied_cell(
            o,
            facing_cell(x, y, rot),
        ),
        layer_visible_spec(part_type, x, y, rot, "TopAttachment"@, o) == occupied_cell(
            o,
            facing_cell(x, y, rot + 1),
        ),
        layer_visible_spec(part_type, x, y, rot, "LeftAttachment"@, o) == occupied_cell(
            o,
            facing_cell(x, y, rot + 2),
        ),
        layer_visible_spec(part_type, x, y, rot, "BottomAttachment"@, o) == (occupied_cell(
            o,
            facing_cell(x, y, rot + 3),
        ) || (part_type == 17 && !occupied_cell(o, facing_cell(x, y, rot)) && !occupied_cell(
            o,
            facing_cell(x, y, rot + 1),
        ) && !occupied_cell(o, facing_cell(x, y, rot + 2)))),
{
    reveal_strlit("RightAttachment");
    reveal_strlit("TopAttachment");
    reveal_strlit("LeftAttachment");
    reveal_strlit("BottomAttachment");
    assert("RightAttachment"@.len() != "TopAttachment"@.len());
    assert("RightAttachment"@.len() != "LeftAttachment"@.len());
    assert("BottomAttachment"@.len() != "LeftAttachment"@.len());
    assert("BottomAttachment"@.len() != "TopAttachment"@.len());
    assert("BottomAttachment"@.len() != "RightAttachment"@.len());
    assert("TopAttachment"@.len() != "LeftAttachment"@.len());
    assert("RightAttachment"@[0] != "LeftAttachment"@[0]);
}
} // verus!

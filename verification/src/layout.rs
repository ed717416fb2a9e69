//! What the prompts browser draws, as text: the shortcut hints of each mode,
//! the line above the list, the list rows and the editor's header, and how
//! far the list scrolls to keep the selection in view.
use vstd::prelude::*;

use crate::browser::{
    sat_u16, truncate_to_width, truncated, PromptsModalMode, PromptsModalState, PromptsTab, Rect,
};
use crate::catalog::{id_title, PromptId};
use crate::model::{source_label, PresetInfoView, PromptPresetInfo, SourceView};
use crate::ops::session_source;
use crate::semantics::session_source_spec;
use crate::store::{opt_view, CatalogStore};
use crate::text::{dec, decimal};
use crate::unicode::{str_width, width_of_str};

verus! {

/// The shortcut hints shown for `mode` on `tab`.
pub open spec fn shortcut_labels(mode: PromptsModalMode, tab: PromptsTab) -> Seq<Seq<char>> {
    match mode {
        PromptsModalMode::Editing { .. } => seq!["Ctrl+S save"@, "Esc cancel"@, "Ctrl+E $EDITOR"@],
        PromptsModalMode::NamingPreset { .. } => seq!["Enter save"@, "Esc cancel"@],
        PromptsModalMode::ConfirmingReset { .. } => seq!["r confirm reset"@],
        PromptsModalMode::ConfirmingDeletePreset { .. } => seq!["d confirm delete"@],
        PromptsModalMode::ConfirmingDefaults => seq!["c confirm defaults"@],
        PromptsModalMode::ConfirmingOverwrite { .. } => seq!["o replace"@, "Esc keep"@],
        PromptsModalMode::FilterFocused => seq!["type to filter"@, "Esc done"@],
        PromptsModalMode::Browse => match tab {
            PromptsTab::Catalog => seq![
                "\u{2191}/\u{2193} nav"@,
                "Enter edit"@,
                "r reset"@,
                "n save preset"@,
                "Tab presets"@,
                "Esc close"@,
            ],
            PromptsTab::Presets => seq![
                "\u{2191}/\u{2193} nav"@,
                "Enter apply"@,
                "n new"@,
                "u update"@,
                "d delete"@,
                "c defaults"@,
                "Tab catalog"@,
            ],
        },
    }
}

/// The filter text, or its placeholder while it is empty.
pub open spec fn filter_line(s: PromptsModalState) -> Seq<char> {
    if s.query@.len() == 0 {
        if s.mode is FilterFocused {
            "type to filter..."@
        } else {
            "/ to filter..."@
        }
    } else {
        s.query@
    }
}

/// The line above the list: the filter (or its placeholder) on the Catalog
/// tab; on the Presets tab the active preset, or the filter while one is
/// typed or set.
pub open spec fn list_hint_spec(s: PromptsModalState) -> Seq<char> {
    match s.tab {
        PromptsTab::Catalog => filter_line(s),
        PromptsTab::Presets => if s.query@.len() == 0 && !(s.mode is FilterFocused) {
            match s.active_preset {
                Some(p) => "Active: "@ + p@,
                None => "Active: (custom / defaults)"@,
            }
        } else {
            filter_line(s)
        },
    }
}

/// The status line: the outcome of the last action, when there is one,
/// followed by the source the session reads its prompts from.
pub open spec fn status_line_spec(status: Option<Seq<char>>, source: SourceView) -> Seq<char> {
    let named = "Source: "@ + source_label(source);
    match status {
        Some(st) => st + " \u{b7} "@ + named,
        None => named,
    }
}

/// A row label fitted to `max` columns, ending in `...` when it was cut.
pub open spec fn row_label_spec(label: Seq<char>, max: nat) -> Seq<char> {
    if str_width(label) > max {
        truncated(label, if max >= 3 { (max - 3) as nat } else { 0 }) + "..."@
    } else {
        label
    }
}

/// The label of a preset row: its name, with a dot when it is active.
pub open spec fn preset_row_label_spec(p: PresetInfoView) -> Seq<char> {
    p.name + if p.is_active { " \u{25cf}"@ } else { Seq::<char>::empty() }
}

/// The right-hand column of a preset row: its number of overrides.
pub open spec fn preset_row_meta_spec(p: PresetInfoView) -> Seq<char> {
    dec(p.override_count) + " ov"@
}

/// The header line of the prompt editor.
pub open spec fn editor_header_spec(id: PromptId, dirty: bool) -> Seq<char> {
    "Editing "@ + id_title(id) + " "@ + (if dirty { "(modified)"@ } else { Seq::<char>::empty() })
        + " — Ctrl+S save · Esc cancel · Ctrl+E $EDITOR · click to place caret"@
}

/// The scroll offset that keeps `selected` among `height` visible rows.
pub open spec fn visible_offset(selected: int, offset: int, height: int) -> int {
    let o = if selected < offset { selected } else { offset };
    if selected >= o + height {
        let keep = if height >= 1 { height - 1 } else { 0 };
        if selected >= keep { selected - keep } else { 0 }
    } else {
        o
    }
}

/// Rows the list shows below its filter line in `area`.
pub open spec fn list_rows(area: Rect) -> int {
    if area.height >= 1 {
        area.height - 1
    } else {
        0
    }
}

/// The list's scrollbar in `area` for `total` shown positions: the
/// right-hand column beside the rows, when they do not all fit and the list
/// is wider than four columns.
pub open spec fn list_scrollbar_spec(area: Rect, total: nat) -> Option<Rect> {
    let rows = list_rows(area);
    if (if total < 0xffff { total } else { 0xffff }) > rows && area.width > 4 {
        Some(Rect { x: (area.x + area.width - 1) as u16, y: (area.y + 1) as u16, width: 1, height: rows as u16 })
    } else {
        None
    }
}

/// Width left for the rows beside the scrollbar `sb` in `area`.
pub open spec fn row_width_spec(area: Rect, sb: Option<Rect>) -> u16 {
    if sb is Some {
        (if area.width >= 2 { area.width - 2 } else { 0 }) as u16
    } else {
        area.width
    }
}

/// The first and one-past-last shown positions drawn in `rows` rows from
/// scroll offset `offset`, out of `total`.
pub open spec fn shown_range_spec(offset: int, rows: int, total: int) -> (int, int) {
    let end = if offset + rows < total { offset + rows } else { total };
    (if offset < end { offset } else { end }, end)
}

/// The name field in `area`: after the `Name: ` label, two lines down, at
/// least one column wide.
pub open spec fn name_field_spec(area: Rect) -> Rect {
    let w = if area.width > 6 { area.width - 6 } else { 1 };
    Rect { x: (area.x + 6) as u16, y: (area.y + 2) as u16, width: w as u16, height: 1 }
}

/// The caret in the name field `f` for display column `col`, kept on the
/// field's last cell when the column lies beyond it.
pub open spec fn name_caret_spec(f: Rect, col: int) -> (u16, u16) {
    (if col < f.width { (f.x + col) as u16 } else { (f.x + f.width - 1) as u16 }, f.y)
}

/// The editor's typing surface in `area`: everything below its header line,
/// or nothing when fewer than two lines are free.
pub open spec fn editor_area_spec(area: Rect) -> Option<Rect> {
    if area.height < 2 {
        None
    } else {
        Some(Rect { x: area.x, y: (area.y + 1) as u16, width: area.width, height: (area.height - 1) as u16 })
    }
}

impl PromptsModalState {
    /// Lay the list out in `area`: the scroll offset keeps the selection
    /// among the rows below the filter line, a scrollbar takes the right-hand
    /// column when the shown positions do not fit, and the width left for the
    /// rows is returned.
    pub fn place_list(&mut self, area: Rect) -> (w: u16)
        requires
            area.x + area.width <= 0xffff,
            area.y + area.height < 0xffff,
        ensures
            *final(self) == (PromptsModalState {
                scroll_offset: visible_offset(
                    old(self).selected as int,
                    old(self).scroll_offset as int,
                    list_rows(area),
                ) as usize,
                list_area: area,
                list_scrollbar_area: list_scrollbar_spec(area, old(self).filtered_cache@.len()),
                ..*old(self)
            }),
            w == row_width_spec(area, list_scrollbar_spec(area, old(self).filtered_cache@.len())),
    {
        let rows: u16 = if area.height >= 1 { area.height - 1 } else { 0 };
        self.keep_selection_visible(rows as usize);
        self.list_area = area;
        let total = sat_u16(self.filtered_cache.len());
        let sb = if total > rows && area.width > 4 {
            Some(Rect { x: area.x + area.width - 1, y: area.y + 1, width: 1, height: rows })
        } else {
            None
        };
        self.list_scrollbar_area = sb;
        match sb {
            Some(_) => if area.width >= 2 { area.width - 2 } else { 0 },
            None => area.width,
        }
    }

    /// The first and one-past-last shown positions drawn in `rows` rows.
    pub fn shown_range(&self, rows: usize) -> (r: (usize, usize))
        ensures
            r.0 as int == shown_range_spec(self.scroll_offset as int, rows as int, self.filtered_cache@.len() as int).0,
            r.1 as int == shown_range_spec(self.scroll_offset as int, rows as int, self.filtered_cache@.len() as int).1,
    {
        let total = self.filtered_cache.len();
        let end = if self.scroll_offset < total && rows < total - self.scroll_offset {
            self.scroll_offset + rows
        } else {
            total
        };
        (if self.scroll_offset < end { self.scroll_offset } else { end }, end)
    }

    /// Lay the name field out in `area`; `col` is the display column of the
    /// field's cursor within its visible text.
    pub fn place_name_field(&mut self, area: Rect, col: usize)
        requires
            area.x + area.width + 6 <= 0xffff,
            area.y + 2 <= 0xffff,
        ensures
            *final(self) == (PromptsModalState {
                edit_area: Some(name_field_spec(area)),
                cursor_pos: Some(name_caret_spec(name_field_spec(area), col as int)),
                ..*old(self)
            }),
    {
        let w: u16 = if area.width > 6 { area.width - 6 } else { 1 };
        let f = Rect { x: area.x + 6, y: area.y + 2, width: w, height: 1 };
        let cx: u16 = if col < w as usize {
            let c: u16 = col as u16;
            assert(c == col);
            f.x + c
        } else {
            f.x + (w - 1)
        };
        self.edit_area = Some(f);
        self.cursor_pos = Some((cx, f.y));
    }

    /// Lay the prompt editor's typing surface out in `area`; `caret` is where
    /// the editor widget puts its cursor on that surface.
    pub fn place_editor(&mut self, area: Rect, caret: Option<(u16, u16)>)
        requires
            area.y + area.height <= 0xffff,
        ensures
            *final(self) == (PromptsModalState {
                edit_area: editor_area_spec(area),
                cursor_pos: if editor_area_spec(area) is Some { caret } else { None },
                ..*old(self)
            }),
    {
        if area.height < 2 {
            self.edit_area = None;
            self.cursor_pos = None;
        } else {
            self.edit_area = Some(Rect { x: area.x, y: area.y + 1, width: area.width, height: area.height - 1 });
            self.cursor_pos = caret;
        }
    }

    /// The shortcut hints for the current mode and tab.
    pub fn build_shortcuts(&self) -> (r: Vec<&'static str>)
        ensures
            r@.map_values(|l: &'static str| l@) == shortcut_labels(self.mode, self.tab),
    {
        let r = match self.mode {
            PromptsModalMode::Editing { .. } => vec!["Ctrl+S save", "Esc cancel", "Ctrl+E $EDITOR"],
            PromptsModalMode::NamingPreset { .. } => vec!["Enter save", "Esc cancel"],
            PromptsModalMode::ConfirmingReset { .. } => vec!["r confirm reset"],
            PromptsModalMode::ConfirmingDeletePreset { .. } => vec!["d confirm delete"],
            PromptsModalMode::ConfirmingDefaults => vec!["c confirm defaults"],
            PromptsModalMode::ConfirmingOverwrite { .. } => vec!["o replace", "Esc keep"],
            PromptsModalMode::FilterFocused => vec!["type to filter", "Esc done"],
            PromptsModalMode::Browse => match self.tab {
                PromptsTab::Catalog => vec![
                    "\u{2191}/\u{2193} nav",
                    "Enter edit",
                    "r reset",
                    "n save preset",
                    "Tab presets",
                    "Esc close",
                ],
                PromptsTab::Presets => vec![
                    "\u{2191}/\u{2193} nav",
                    "Enter apply",
                    "n new",
                    "u update",
                    "d delete",
                    "c defaults",
                    "Tab catalog",
                ],
            },
        };
        assert(r@.map_values(|l: &'static str| l@) =~= shortcut_labels(self.mode, self.tab));
        r
    }

    /// The line shown above the list.
    pub fn list_hint(&self) -> (r: String)
        ensures
            r@ == list_hint_spec(*self),
    {
        let focused = match self.mode {
            PromptsModalMode::FilterFocused => true,
            _ => false,
        };
        let empty = self.query.unicode_len() == 0;
        let filter = if !empty {
            self.query.clone()
        } else if focused {
            String::from_str("type to filter...")
        } else {
            String::from_str("/ to filter...")
        };
        match self.tab {
            PromptsTab::Catalog => filter,
            PromptsTab::Presets => if empty && !focused {
                match &self.active_preset {
                    Some(p) => String::from_str("Active: ").concat(p.as_str()),
                    None => String::from_str("Active: (custom / defaults)"),
                }
            } else {
                filter
            },
        }
    }

    /// The status line for the session of `store`; it always names the
    /// source the session reads from.
    pub fn status_line(&self, store: &CatalogStore) -> (r: String)
        ensures
            r@ == status_line_spec(opt_view(self.status), session_source_spec(store@)),
    {
        let named = String::from_str("Source: ").concat(session_source(store).label().as_str());
        match &self.status {
            Some(st) => st.clone().concat(" \u{b7} ").concat(named.as_str()),
            None => named,
        }
    }

    /// Move the scroll offset so the selection is among `height` visible rows.
    pub fn keep_selection_visible(&mut self, height: usize)
        ensures
            *final(self) == (PromptsModalState {
                scroll_offset: visible_offset(old(self).selected as int, old(self).scroll_offset as int, height as int) as usize,
                ..*old(self)
            }),
    {
        if self.selected < self.scroll_offset {
            self.scroll_offset = self.selected;
        }
        if height <= usize::MAX - self.scroll_offset && self.selected >= self.scroll_offset + height {
            let keep = if height >= 1 { height - 1 } else { 0 };
            self.scroll_offset = if self.selected >= keep { self.selected - keep } else { 0 };
        }
    }
}

/// `label` fitted to `max` columns, ending in `...` when it was cut.
pub fn row_label(label: &str, max: usize) -> (r: String)
    ensures
        r@ == row_label_spec(label@, max as nat),
{
    if width_of_str(label) > max {
        let keep = if max >= 3 { max - 3 } else { 0 };
        truncate_to_width(label, keep).concat("...")
    } else {
        String::from_str(label)
    }
}

/// The label of preset `p`'s row.
pub fn preset_row_label(p: &PromptPresetInfo) -> (r: String)
    ensures
        r@ == preset_row_label_spec(p@),
{
    if p.is_active {
        p.name.clone().concat(" \u{25cf}")
    } else {
        let r = p.name.clone();
        assert(r@ + Seq::<char>::empty() =~= r@);
        r
    }
}

/// The right-hand column of preset `p`'s row.
pub fn preset_row_meta(p: &PromptPresetInfo) -> (r: String)
    ensures
        r@ == preset_row_meta_spec(p@),
{
    decimal(p.override_count).concat(" ov")
}

/// The header line of the editor for prompt `id`.
pub fn editor_header(id: PromptId, dirty: bool) -> (r: String)
    ensures
        r@ == editor_header_spec(id, dirty),
{
    let mark = if dirty { String::from_str("(modified)") } else { String::new() };
    proof {
        reveal_strlit("");
    }
    String::from_str("Editing ").concat(id.title()).concat(" ").concat(mark.as_str()).concat(
        " — Ctrl+S save · Esc cancel · Ctrl+E $EDITOR · click to place caret",
    )
}

} // verus!

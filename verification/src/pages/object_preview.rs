use vstd::prelude::*;
use vstd::string::StringExecFns;

use crate::event::{AppEventType, AppKeyInput};
use crate::object::{FileDetail, Object};
use crate::util::{digits, preview_lines_of, spec_digits, to_preview_lines};
use crate::widget::SaveDialogState;

verus! {

/// What `textwrap::wrap` makes of one terminator-free line at a width; it
/// depends on the line and the width alone.
pub uninterp spec fn wrap_of(line: Seq<char>, width: usize) -> Seq<Seq<char>>;

/// Relies on textwrap::wrap: word-wraps one line at `width` display
/// columns; a pure function of line and width that always yields at least
/// one segment (an empty line yields one empty segment).
#[verifier::external_body]
fn wrap_line(line: &String, width: usize) -> (segs: Vec<String>)
    ensures
        segs@.map_values(|s: String| s@) == wrap_of(line@, width),
        segs@.len() >= 1,
{
    textwrap::wrap(line.as_str(), width).into_iter().map(|cow| cow.into_owned()).collect()
}

/// The decimal digits of `n`, most significant first.
pub open spec fn dec_str(n: nat) -> Seq<char>
    decreases n,
{
    if n < 10 {
        seq![digit_char(n)]
    } else {
        dec_str(n / 10).push(digit_char(n % 10))
    }
}

pub open spec fn digit_char(d: nat) -> char {
    if d == 0 {
        '0'
    } else if d == 1 {
        '1'
    } else if d == 2 {
        '2'
    } else if d == 3 {
        '3'
    } else if d == 4 {
        '4'
    } else if d == 5 {
        '5'
    } else if d == 6 {
        '6'
    } else if d == 7 {
        '7'
    } else if d == 8 {
        '8'
    } else {
        '9'
    }
}

pub open spec fn spaces(k: nat) -> Seq<char> {
    Seq::new(k, |i: int| ' ')
}

/// The gutter text of a row that starts a source line: the line number,
/// right-aligned to the gutter width.
pub open spec fn gutter_label(n: nat, width: nat) -> Seq<char> {
    if spec_digits(n) < width {
        spaces((width - spec_digits(n)) as nat) + dec_str(n)
    } else {
        dec_str(n)
    }
}

pub proof fn lemma_dec_str_len(n: nat)
    ensures
        dec_str(n).len() == spec_digits(n),
    decreases n,
{
    if n >= 10 {
        lemma_dec_str_len(n / 10);
    }
}

/// The rows one source line contributes: its first wrapped segment carries
/// the right-aligned line number, continuation segments a blank gutter, and
/// each gutter is followed by one separating space.
pub open spec fn line_rows(n: nat, gutter: nat, segs: Seq<Seq<char>>) -> Seq<Seq<char>> {
    Seq::new(
        segs.len(),
        |i: int|
            (if i == 0 {
                gutter_label(n, gutter)
            } else {
                spaces(gutter)
            }) + seq![' '] + segs[i],
    )
}

/// All rows from source line `start` (0-based; numbered `start + 1`) to the
/// end, each line wrapped at `width`.
pub open spec fn rows_from(lines: Seq<Seq<char>>, start: int, gutter: nat, width: usize) -> Seq<
    Seq<char>,
>
    decreases lines.len() - start,
{
    if start < 0 || start >= lines.len() {
        Seq::empty()
    } else {
        line_rows((start + 1) as nat, gutter, wrap_of(lines[start], width)) + rows_from(
            lines,
            start + 1,
            gutter,
            width,
        )
    }
}

/// The first `k` rows, or all of them when fewer exist: the viewport bound.
pub open spec fn take_up_to(s: Seq<Seq<char>>, k: int) -> Seq<Seq<char>> {
    if 0 <= k <= s.len() {
        s.take(k)
    } else {
        s
    }
}

/// Re-rendering at one viewport is deterministic: any two row sequences the
/// rendering contract admits for the same state, width and height are equal.
pub proof fn lemma_render_stable(
    lines: Seq<Seq<char>>,
    start: int,
    gutter: nat,
    width: usize,
    show: int,
    rows1: Seq<Seq<char>>,
    rows2: Seq<Seq<char>>,
)
    requires
        rows1 == take_up_to(rows_from(lines, start, gutter, width), show),
        rows2 == take_up_to(rows_from(lines, start, gutter, width), show),
    ensures
        rows1 == rows2,
{
}

/// Where scrolling forward lands: one line down, clamped to the last line.
pub open spec fn forward_offset(offset: nat, count: nat) -> nat {
    if offset + 1 < count {
        offset + 1
    } else {
        offset
    }
}

/// Where scrolling backward lands: one line up, clamped to the first line.
pub open spec fn backward_offset(offset: nat) -> nat {
    if offset > 0 {
        (offset - 1) as nat
    } else {
        0
    }
}

/// Where scroll-to-end lands: the last line, or 0 when there is none.
pub open spec fn end_offset(count: nat) -> nat {
    if count == 0 {
        0
    } else {
        (count - 1) as nat
    }
}

/// Scrolling to the end and then forward moves nowhere.
pub proof fn lemma_forward_after_end_is_noop(count: nat)
    ensures
        forward_offset(end_offset(count), count) == end_offset(count),
{
}

/// Scrolling to the top and then backward moves nowhere.
pub proof fn lemma_backward_after_top_is_noop()
    ensures
        backward_offset(0) == 0,
{
}

/// Every scroll operation keeps the offset within the line count.
pub proof fn lemma_scroll_stays_in_bounds(offset: nat, count: nat)
    requires
        count >= 1,
        offset < count,
    ensures
        forward_offset(offset, count) < count,
        backward_offset(offset) < count,
        end_offset(count) < count,
        0 < count,
{
}

fn digit_literal(d: usize) -> (r: &'static str)
    requires
        d < 10,
    ensures
        r@ == seq![digit_char(d as nat)],
{
    let s: &'static str = if d == 0 {
        "0"
    } else if d == 1 {
        "1"
    } else if d == 2 {
        "2"
    } else if d == 3 {
        "3"
    } else if d == 4 {
        "4"
    } else if d == 5 {
        "5"
    } else if d == 6 {
        "6"
    } else if d == 7 {
        "7"
    } else if d == 8 {
        "8"
    } else {
        "9"
    };
    proof {
        reveal_strlit("0");
        reveal_strlit("1");
        reveal_strlit("2");
        reveal_strlit("3");
        reveal_strlit("4");
        reveal_strlit("5");
        reveal_strlit("6");
        reveal_strlit("7");
        reveal_strlit("8");
        reveal_strlit("9");
        assert(s@ =~= seq![digit_char(d as nat)]);
    }
    s
}

fn format_decimal(n: usize) -> (r: String)
    ensures
        r@ == dec_str(n as nat),
    decreases n,
{
    let d = digit_literal(n % 10);
    if n < 10 {
        proof {
            assert(seq![digit_char((n % 10) as nat)] =~= dec_str(n as nat));
        }
        d.to_owned()
    } else {
        let mut s = format_decimal(n / 10);
        s.append(d);
        proof {
            assert(dec_str((n / 10) as nat).push(digit_char((n % 10) as nat)) =~= dec_str(
                (n / 10) as nat,
            ) + seq![digit_char((n % 10) as nat)]);
        }
        s
    }
}

fn spaces_string(k: usize) -> (r: String)
    ensures
        r@ == spaces(k as nat),
{
    let mut s = String::new();
    let mut i: usize = 0;
    proof {
        assert(s@ =~= spaces(0));
    }
    while i < k
        invariant
            i <= k,
            s@ == spaces(i as nat),
        decreases k - i,
    {
        proof {
            reveal_strlit(" ");
        }
        s.append(" ");
        proof {
            assert(spaces(i as nat) + " "@ =~= spaces((i + 1) as nat));
        }
        i = i + 1;
    }
    s
}

fn format_line_number(n: usize, width: usize) -> (r: String)
    ensures
        r@ == gutter_label(n as nat, width as nat),
{
    proof {
        lemma_dec_str_len(n as nat);
    }
    let d = digits(n);
    if d < width {
        let mut s = spaces_string(width - d);
        let num = format_decimal(n);
        s.append(num.as_str());
        s
    } else {
        format_decimal(n)
    }
}

/// The wrappable columns at a viewport width: what remains after the
/// border (one cell each side), the gutter, its separating space and the
/// horizontal padding.
pub open spec fn spec_content_width(area_width: usize, gutter: nat) -> usize {
    (area_width - gutter - 5) as usize
}

/// The preview screen: display lines derived once from the object's bytes,
/// a scroll offset, and an optional modal save dialog.
#[derive(Debug)]
pub struct ObjectPreviewPage {
    file_detail: FileDetail,
    preview: Vec<String>,
    preview_max_digits: usize,
    object: Object,
    path: String,
    save_dialog_state: Option<SaveDialogState>,
    offset: usize,
}

impl ObjectPreviewPage {
    /// The display lines.
    pub closed spec fn spec_lines(&self) -> Seq<Seq<char>> {
        self.preview@.map_values(|s: String| s@)
    }

    pub closed spec fn line_count(&self) -> nat {
        self.preview@.len()
    }

    pub closed spec fn spec_offset(&self) -> nat {
        self.offset as nat
    }

    pub closed spec fn spec_gutter(&self) -> nat {
        self.preview_max_digits as nat
    }

    pub closed spec fn dialog_open(&self) -> bool {
        self.save_dialog_state is Some
    }

    /// The save dialog's path buffer; empty while the dialog is closed.
    pub closed spec fn dialog_input(&self) -> Seq<char> {
        match self.save_dialog_state {
            Some(s) => s.spec_input(),
            None => Seq::empty(),
        }
    }

    pub closed spec fn spec_file_detail(&self) -> FileDetail {
        self.file_detail
    }

    pub closed spec fn spec_object(&self) -> Object {
        self.object
    }

    pub closed spec fn spec_path(&self) -> Seq<char> {
        self.path@
    }

    /// There is always at least one display line, the offset points at one
    /// of them, and the cached gutter width is the line count's digit width.
    pub open spec fn inv(&self) -> bool {
        &&& self.line_count() >= 1
        &&& self.spec_offset() < self.line_count()
        &&& self.spec_gutter() == spec_digits(self.line_count())
    }

    /// Everything except the scroll offset is as it was.
    pub open spec fn same_except_offset(pre: Self, post: Self) -> bool {
        &&& post.spec_lines() == pre.spec_lines()
        &&& post.spec_gutter() == pre.spec_gutter()
        &&& post.dialog_open() == pre.dialog_open()
        &&& post.dialog_input() == pre.dialog_input()
        &&& post.spec_file_detail() == pre.spec_file_detail()
        &&& post.spec_object() == pre.spec_object()
        &&& post.spec_path() == pre.spec_path()
    }

    /// Everything except the save dialog is as it was.
    pub open spec fn same_except_dialog(pre: Self, post: Self) -> bool {
        &&& post.spec_lines() == pre.spec_lines()
        &&& post.spec_gutter() == pre.spec_gutter()
        &&& post.spec_offset() == pre.spec_offset()
        &&& post.spec_file_detail() == pre.spec_file_detail()
        &&& post.spec_object() == pre.spec_object()
        &&& post.spec_path() == pre.spec_path()
    }

    /// How one key press changes the page: while the dialog is open, a
    /// character is appended to the path buffer — except the help toggle
    /// `?`, which is swallowed — and backspace removes the last character;
    /// while it is closed, nothing changes.
    pub open spec fn key_input_spec(pre: Self, post: Self, input: AppKeyInput) -> bool {
        &&& Self::same_except_dialog(pre, post)
        &&& post.dialog_open() == pre.dialog_open()
        &&& !pre.dialog_open() ==> post == pre
        &&& pre.dialog_open() ==> post.dialog_input() == (match input {
            AppKeyInput::Char(c) => if c == '?' {
                pre.dialog_input()
            } else {
                pre.dialog_input().push(c)
            },
            AppKeyInput::Backspace => if pre.dialog_input().len() == 0 {
                pre.dialog_input()
            } else {
                pre.dialog_input().drop_last()
            },
        })
    }

    /// Builds the preview of `object`: its bytes decoded by content type,
    /// stripped of at most one trailing terminator, split into display
    /// lines; the scroll starts at the top and no dialog is open.
    pub fn new(file_detail: FileDetail, object: Object, path: String) -> (p: Self)
        ensures
            p.inv(),
            p.spec_lines() == preview_lines_of(object.bytes@, object.content_type@),
            p.spec_offset() == 0,
            !p.dialog_open(),
            p.spec_file_detail() == file_detail,
            p.spec_object() == object,
            p.spec_path() == path@,
    {
        let preview = to_preview_lines(object.bytes.as_slice(), object.content_type.as_str());
        let preview_max_digits = digits(preview.len());
        ObjectPreviewPage {
            file_detail,
            preview,
            preview_max_digits,
            object,
            path,
            save_dialog_state: None,
            offset: 0,
        }
    }

    /// Feeds one event to the page; only key input is consumed here.
    pub fn handle_event(&mut self, event: AppEventType)
        requires
            old(self).inv(),
        ensures
            final(self).inv(),
            match event {
                AppEventType::KeyInput(input) => Self::key_input_spec(
                    *old(self),
                    *final(self),
                    input,
                ),
                _ => *final(self) == *old(self),
            },
    {
        if let AppEventType::KeyInput(input) = event {
            self.handle_key_input(input);
        }
    }

    pub fn handle_key_input(&mut self, input: AppKeyInput)
        requires
            old(self).inv(),
        ensures
            final(self).inv(),
            Self::key_input_spec(*old(self), *final(self), input),
    {
        match &mut self.save_dialog_state {
            Some(state) => {
                match input {
                    AppKeyInput::Char(c) => {
                        if c != '?' {
                            state.add_char(c);
                        }
                    },
                    AppKeyInput::Backspace => {
                        state.delete_char();
                    },
                }
            },
            None => {},
        }
    }

    /// Opens the modal save dialog with an empty path buffer.
    pub fn open_save_dialog(&mut self)
        requires
            old(self).inv(),
        ensures
            final(self).inv(),
            Self::same_except_dialog(*old(self), *final(self)),
            final(self).dialog_open(),
            final(self).dialog_input() == Seq::<char>::empty(),
    {
        self.save_dialog_state = Some(SaveDialogState::default());
    }

    /// Closes the modal save dialog, discarding its buffer.
    pub fn close_save_dialog(&mut self)
        requires
            old(self).inv(),
        ensures
            final(self).inv(),
            Self::same_except_dialog(*old(self), *final(self)),
            !final(self).dialog_open(),
    {
        self.save_dialog_state = None;
    }

    /// Scrolls one line forward, never past the last line.
    pub fn scroll_forward(&mut self)
        requires
            old(self).inv(),
        ensures
            final(self).inv(),
            Self::same_except_offset(*old(self), *final(self)),
            final(self).spec_offset() == forward_offset(
                old(self).spec_offset(),
                old(self).line_count(),
            ),
    {
        if self.offset < self.preview.len() - 1 {
            self.offset = self.offset + 1;
        }
    }

    /// Scrolls one line backward, never before the first line.
    pub fn scroll_backward(&mut self)
        requires
            old(self).inv(),
        ensures
            final(self).inv(),
            Self::same_except_offset(*old(self), *final(self)),
            final(self).spec_offset() == backward_offset(old(self).spec_offset()),
    {
        if self.offset > 0 {
            self.offset = self.offset - 1;
        }
    }

    /// Scrolls to the first line.
    pub fn scroll_to_top(&mut self)
        requires
            old(self).inv(),
        ensures
            final(self).inv(),
            Self::same_except_offset(*old(self), *final(self)),
            final(self).spec_offset() == 0,
    {
        self.offset = 0;
    }

    /// Scrolls to the last line.
    pub fn scroll_to_end(&mut self)
        requires
            old(self).inv(),
        ensures
            final(self).inv(),
            Self::same_except_offset(*old(self), *final(self)),
            final(self).spec_offset() == end_offset(old(self).line_count()),
    {
        self.offset = self.preview.len() - 1;
    }

    pub fn file_detail(&self) -> (r: &FileDetail)
        ensures
            *r == self.spec_file_detail(),
    {
        &self.file_detail
    }

    /// The dialog's path buffer, for the download collaborator to act on;
    /// `None` while the dialog is closed.
    pub fn save_dialog_key_input(&self) -> (r: Option<String>)
        ensures
            r is Some <==> self.dialog_open(),
            r matches Some(s) ==> s@ == self.dialog_input(),
    {
        match &self.save_dialog_state {
            Some(state) => Some(state.input().to_owned()),
            None => None,
        }
    }

    pub fn object(&self) -> (r: &Object)
        ensures
            *r == self.spec_object(),
    {
        &self.object
    }

    pub fn path(&self) -> (r: &str)
        ensures
            r@ == self.spec_path(),
    {
        self.path.as_str()
    }

    /// The viewport rows of the preview at a terminal size of
    /// `area_width` columns by `area_height` rows: starting at the scroll
    /// offset, each source line in order is wrapped to the content width,
    /// the first segment of a line carries its right-aligned 1-based line
    /// number, continuation segments a blank gutter, each followed by one
    /// separating space; at most `area_height - 2` rows are produced.
    /// Wrapping happens here, at the current width, never from a cache.
    pub fn render_rows(&self, area_width: usize, area_height: usize) -> (rows: Vec<String>)
        requires
            self.inv(),
            area_width >= self.spec_gutter() + 6,
            area_height >= 2,
        ensures
            rows@.map_values(|s: String| s@) == take_up_to(
                rows_from(
                    self.spec_lines(),
                    self.spec_offset() as int,
                    self.spec_gutter(),
                    spec_content_width(area_width, self.spec_gutter()),
                ),
                area_height - 2,
            ),
    {
        let gutter = self.preview_max_digits;
        let width = area_width - gutter - 5;
        let show = area_height - 2;
        let ghost lines = self.spec_lines();
        let ghost off0 = self.spec_offset() as int;
        let ghost total = rows_from(lines, off0, gutter as nat, width);
        let mut rows: Vec<String> = Vec::new();
        let mut i: usize = self.offset;
        proof {
            assert(width == spec_content_width(area_width, self.spec_gutter()));
            assert(rows@.map_values(|s: String| s@) =~= Seq::<Seq<char>>::empty());
            assert(Seq::<Seq<char>>::empty() + total =~= total);
            assert(total.take(0) =~= Seq::<Seq<char>>::empty());
        }
        while i < self.preview.len() && rows.len() < show
            invariant
                self.inv(),
                lines == self.spec_lines(),
                gutter == self.preview_max_digits,
                total == rows_from(lines, off0, gutter as nat, width),
                off0 <= i <= lines.len(),
                lines.len() == self.preview@.len(),
                rows@.len() <= show,
                rows@.len() <= total.len(),
                total.take(rows@.len() as int) == rows@.map_values(|s: String| s@),
                rows@.len() < show ==> total == rows@.map_values(|s: String| s@) + rows_from(
                    lines,
                    i as int,
                    gutter as nat,
                    width,
                ),
            decreases lines.len() - i,
        {
            let line_no = i + 1;
            let segs = wrap_line(&self.preview[i], width);
            let ghost wrapped = wrap_of(lines[i as int], width);
            let ghost lr = line_rows((i + 1) as nat, gutter as nat, wrapped);
            let ghost rest = rows_from(lines, i as int + 1, gutter as nat, width);
            proof {
                assert(rows_from(lines, i as int, gutter as nat, width) == lr + rest);
                assert(rows@.map_values(|s: String| s@) + (lr + rest) =~= rows@.map_values(
                    |s: String| s@,
                ) + lr.skip(0) + rest);
            }
            let mut j: usize = 0;
            while j < segs.len() && rows.len() < show
                invariant
                    lines == self.spec_lines(),
                    gutter == self.preview_max_digits,
                    i < lines.len(),
                    lines.len() == self.preview@.len(),
                    line_no == i + 1,
                    segs@.map_values(|s: String| s@) == wrapped,
                    wrapped == wrap_of(lines[i as int], width),
                    lr == line_rows((i + 1) as nat, gutter as nat, wrapped),
                    rest == rows_from(lines, i as int + 1, gutter as nat, width),
                    j <= segs@.len(),
                    rows@.len() <= show,
                    total == rows@.map_values(|s: String| s@) + lr.skip(j as int) + rest,
                decreases segs@.len() - j,
            {
                let mut row = if j == 0 {
                    format_line_number(line_no, gutter)
                } else {
                    spaces_string(gutter)
                };
                proof {
                    reveal_strlit(" ");
                }
                row.append(" ");
                row.append(segs[j].as_str());
                proof {
                    assert(segs@.map_values(|s: String| s@)[j as int] == segs@[j as int]@);
                    assert(row@ =~= lr[j as int]);
                    assert(lr.skip(j as int) =~= seq![lr[j as int]] + lr.skip(j as int + 1));
                    assert(rows@.push(row).map_values(|s: String| s@) =~= rows@.map_values(
                        |s: String| s@,
                    ).push(row@));
                    assert(rows@.map_values(|s: String| s@).push(row@) + lr.skip(j as int + 1)
                        + rest =~= rows@.map_values(|s: String| s@) + lr.skip(j as int) + rest);
                }
                rows.push(row);
                j = j + 1;
            }
            proof {
                assert(total.take(rows@.len() as int) =~= rows@.map_values(|s: String| s@));
                if rows@.len() < show {
                    assert(j == segs@.len());
                    assert(lr.skip(j as int) =~= Seq::<Seq<char>>::empty());
                    assert(rows@.map_values(|s: String| s@) + lr.skip(j as int) + rest
                        =~= rows@.map_values(|s: String| s@) + rest);
                }
            }
            i = i + 1;
        }
        proof {
            if rows@.len() == show {
                assert(take_up_to(total, show as int) == total.take(show as int));
            } else {
                assert(i == lines.len());
                assert(rows_from(lines, i as int, gutter as nat, width)
                    =~= Seq::<Seq<char>>::empty());
                assert(rows@.map_values(|s: String| s@) =~= total);
                assert(take_up_to(total, show as int) == total);
            }
        }
        rows
    }

    /// The gutter width in columns: the digit width of the line count.
    pub fn gutter_width(&self) -> (r: usize)
        ensures
            r == self.spec_gutter(),
    {
        self.preview_max_digits
    }

    /// Whether the save dialog is open.
    pub fn status(&self) -> (r: bool)
        ensures
            r == self.dialog_open(),
    {
        self.save_dialog_state.is_some()
    }
}

} // verus!

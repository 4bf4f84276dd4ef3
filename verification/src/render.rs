//! The renderer: from the size of the terminal and the state of a session to the steps that
//! draw the frame.

use vstd::prelude::*;
use crate::draw::{Draw, DrawOp};
use crate::input::InputBuffer;
use crate::record::{visual_height, Record, RecordView, Records};
use crate::screen::ScreenView;

verus! {

/// A text on a bar of the given width: cut at the width, or filled up with spaces.
pub open spec fn bar_text(text: Seq<char>, width: nat) -> Seq<char> {
    if text.len() >= width {
        text.take(width as int)
    } else {
        text + Seq::new((width - text.len()) as nat, |i: int| ' ')
    }
}

/// The text that shows a record: its author between angle brackets, its content, and a
/// line feed.
pub open spec fn entry_text(r: RecordView) -> Seq<char> {
    "<"@ + r.username + ">"@ + r.data + "\n"@
}

/// The rows that the scrollback has on a terminal of the given height while `input` is on
/// the prompt line: the height less the rows of the input and less the row of the status
/// bar. It is negative where the terminal is too small.
pub open spec fn scrollback_room(input: Seq<char>, height: u16) -> int {
    height - visual_height(input) - 1
}

/// The steps that draw the scrollback into `room` rows. The records are walked from the
/// newest. One that fits into the rows that are left is drawn whole, above those drawn
/// before it, so that its last row is row `room`; the first that does not fit ends the
/// walk, and neither it nor any older record is drawn.
pub open spec fn scrollback(records: Seq<RecordView>, room: int) -> Seq<Draw>
    decreases records.len(),
{
    if records.len() == 0 || records.last().y_size > room {
        Seq::empty()
    } else {
        seq![
            Draw::MoveTo { x: 0, y: (room - records.last().y_size + 1) as u16 },
            Draw::Text(entry_text(records.last())),
        ] + scrollback(records.drop_last(), room - records.last().y_size)
    }
}

/// The number of records that the scrollback shows in `room` rows.
pub open spec fn shown_count(records: Seq<RecordView>, room: int) -> nat
    decreases records.len(),
{
    if records.len() == 0 || records.last().y_size > room {
        0
    } else {
        1 + shown_count(records.drop_last(), room - records.last().y_size)
    }
}

/// The row of the status bar: the last but one.
pub open spec fn status_row(height: u16) -> u16 {
    if height == 0 {
        0
    } else {
        (height - 1) as u16
    }
}

/// The steps that clear the screen and draw the title bar on row 1.
pub open spec fn frame_head(s: ScreenView, width: u16) -> Seq<Draw> {
    seq![
        Draw::Clear,
        Draw::MoveTo { x: 0, y: 1 },
        Draw::Highlight,
        Draw::Text(bar_text(s.title, width as nat)),
        Draw::Reset,
    ]
}

/// The steps that draw the status bar on the last row but one, and the prompt with the
/// line being typed on the last row.
pub open spec fn frame_foot(s: ScreenView, width: u16, height: u16) -> Seq<Draw> {
    seq![
        Draw::MoveTo { x: 0, y: status_row(height) },
        Draw::Highlight,
        Draw::Text(bar_text(s.status, width as nat)),
        Draw::MoveTo { x: 0, y: height },
        Draw::Reset,
        Draw::Text(s.prompt + s.input.chars),
    ]
}

/// The steps that draw a whole frame on a terminal of the given size: the head with the
/// title bar, then the scrollback, then the foot with the status bar and the prompt.
pub open spec fn frame(s: ScreenView, width: u16, height: u16) -> Seq<Draw> {
    frame_head(s, width) + scrollback(s.records, scrollback_room(s.input.chars, height))
        + frame_foot(s, width, height)
}

/// The steps that draw the `shown` newest of a log of one-row records, the newest on row
/// `room` and each older one on the row above: for each record a move to its row and its
/// whole text.
pub open spec fn one_row_scrollback(records: Seq<RecordView>, room: int, shown: int) -> Seq<Draw> {
    Seq::new(
        (2 * shown) as nat,
        |j: int|
            if j % 2 == 0 {
                Draw::MoveTo { x: 0, y: (room - j / 2) as u16 }
            } else {
                Draw::Text(entry_text(records[records.len() - 1 - j / 2]))
            },
    )
}

/// The scrollback holds two steps for each record that it shows.
pub proof fn lemma_scrollback_len(records: Seq<RecordView>, room: int)
    ensures
        scrollback(records, room).len() == 2 * shown_count(records, room),
        shown_count(records, room) <= records.len(),
    decreases records.len(),
{
    if !(records.len() == 0 || records.last().y_size > room) {
        lemma_scrollback_len(records.drop_last(), room - records.last().y_size);
    }
}

/// In `room` rows a log of one-row records shows its `room` newest records, or all of
/// them if they are fewer, each whole and on a row of its own.
pub proof fn lemma_one_row_records(records: Seq<RecordView>, room: int)
    requires
        0 <= room,
        forall|i: int| 0 <= i < records.len() ==> (#[trigger] records[i]).y_size == 1,
    ensures
        shown_count(records, room) == if records.len() <= room {
            records.len() as int
        } else {
            room
        },
        scrollback(records, room) == one_row_scrollback(
            records,
            room,
            shown_count(records, room) as int,
        ),
    decreases records.len(),
{
    let shown = shown_count(records, room) as int;
    if records.len() == 0 || room == 0 {
        assert(scrollback(records, room) =~= one_row_scrollback(records, room, shown));
    } else {
        let older = records.drop_last();
        lemma_one_row_records(older, room - 1);
        let rest = one_row_scrollback(older, room - 1, shown - 1);
        let drawn = seq![
            Draw::MoveTo { x: 0, y: room as u16 },
            Draw::Text(entry_text(records.last())),
        ];
        assert(scrollback(records, room) == drawn + rest);
        assert forall|j: int| 0 <= j < 2 * shown implies (drawn + rest)[j] == one_row_scrollback(
            records,
            room,
            shown,
        )[j] by {
            if j >= 2 {
                assert((drawn + rest)[j] == rest[j - 2]);
                assert((j - 2) / 2 == j / 2 - 1);
                assert((j - 2) % 2 == j % 2);
            }
        }
        assert(drawn + rest =~= one_row_scrollback(records, room, shown));
    }
}

/// On a terminal that is `height` rows high, with an empty line at the prompt, a log of
/// one-row records shows its `height - 2` newest records, or all of them if they are fewer:
/// each whole, the newest on the row above the status bar and each older one on the row
/// above. The frame holds these steps between its head and its foot, and no other step for
/// a record.
pub proof fn lemma_scrollback_clipping(s: ScreenView, width: u16, height: u16)
    requires
        height >= 2,
        s.input.chars.len() == 0,
        forall|i: int| 0 <= i < s.records.len() ==> (#[trigger] s.records[i]).y_size == 1,
    ensures
        ({
            let room = scrollback_room(s.input.chars, height);
            let shown = shown_count(s.records, room);
            &&& room == height - 2
            &&& room == status_row(height) - 1
            &&& shown == if s.records.len() <= height - 2 {
                s.records.len() as int
            } else {
                height - 2
            }
            &&& scrollback(s.records, room) == one_row_scrollback(s.records, room, shown as int)
            &&& frame(s, width, height) == frame_head(s, width) + one_row_scrollback(
                s.records,
                room,
                shown as int,
            ) + frame_foot(s, width, height)
        }),
{
    lemma_one_row_records(s.records, height - 2);
}

/// Where the newest record fits into the scrollback, it is drawn first, and its last row
/// is the last row of the scrollback: with one row of input, the row above the status bar.
pub proof fn lemma_newest_record_is_lowest(records: Seq<RecordView>, room: int)
    requires
        records.len() > 0,
        records.last().y_size <= room,
    ensures
        scrollback(records, room).len() >= 2,
        scrollback(records, room)[0] == (Draw::MoveTo {
            x: 0,
            y: (room - records.last().y_size + 1) as u16,
        }),
        scrollback(records, room)[1] == Draw::Text(entry_text(records.last())),
{
}

/// The text of a bar that is `max_width` characters wide: `text`, cut at the width or
/// filled up with spaces.
pub fn bar(text: &str, max_width: usize) -> (r: String)
    ensures
        r@ == bar_text(text@, max_width as nat),
        r@.len() == max_width,
{
    let n: usize = text.unicode_len();
    if n >= max_width {
        String::from_str(text.substring_char(0, max_width))
    } else {
        let mut r = String::from_str(text);
        let mut i: usize = n;
        while i < max_width
            invariant
                n == text@.len(),
                n <= i <= max_width,
                r@ == text@ + Seq::new((i - n) as nat, |j: int| ' '),
            decreases max_width - i,
        {
            r.push(' ');
            i = i + 1;
            assert(r@ =~= text@ + Seq::new((i - n) as nat, |j: int| ' '));
        }
        r
    }
}

/// The text that shows a record in the scrollback.
pub fn entry(record: &Record) -> (r: String)
    ensures
        r@ == entry_text(record@),
{
    let mut r = String::from_str("<");
    r.append(record.username.as_str());
    r.append(">");
    r.append(record.data.as_str());
    r.append("\n");
    r
}

/// The steps that draw the records in view on a terminal of the given height while `input`
/// is on the prompt line, the newest record first.
pub fn scrollback_steps(records: &Records, input: &InputBuffer, height: u16) -> (ops: Vec<DrawOp>)
    ensures
        ops.deep_view() == scrollback(records.deep_view(), scrollback_room(input@.chars, height)),
{
    let line = input.current_line();
    let input_rows: usize = Record::count_newlines(line.as_str());
    let mut ops: Vec<DrawOp> = Vec::new();
    let ghost log = records.deep_view();
    let ghost whole = scrollback_room(input@.chars, height);
    if input_rows >= height as usize {
        assert(ops.deep_view() =~= scrollback(log, whole));
        return ops;
    }
    let mut room: usize = height as usize - input_rows - 1;
    let mut i: usize = records.len();
    assert(log.take(i as int) =~= log);
    assert(ops.deep_view() =~= Seq::<Draw>::empty());
    while i > 0
        invariant
            i <= records.len(),
            log == records.deep_view(),
            whole == scrollback_room(input@.chars, height),
            room < u16::MAX,
            ops.deep_view() + scrollback(log.take(i as int), room as int) == scrollback(log, whole),
        decreases i,
    {
        let record = &records[i - 1];
        let ghost rest = log.take(i as int);
        assert(rest.last() == record@);
        assert(rest.drop_last() =~= log.take(i - 1));
        if record.y_size > room {
            assert(scrollback(rest, room as int) =~= Seq::<Draw>::empty());
            assert(ops.deep_view() =~= ops.deep_view() + Seq::<Draw>::empty());
            return ops;
        }
        let ghost before = ops.deep_view();
        let y: u16 = (room - record.y_size + 1) as u16;
        ops.push(DrawOp::MoveTo { x: 0, y });
        ops.push(DrawOp::Text(entry(record)));
        room = room - record.y_size;
        i = i - 1;
        proof {
            let drawn = seq![Draw::MoveTo { x: 0, y }, Draw::Text(entry_text(record@))];
            let older = scrollback(log.take(i as int), room as int);
            assert(ops.deep_view() =~= before + drawn);
            assert(before + (drawn + older) =~= (before + drawn) + older);
        }
    }
    assert(ops.deep_view() =~= ops.deep_view() + Seq::<Draw>::empty());
    ops
}

/// The steps that draw the whole frame on a terminal of the given size.
pub fn frame_steps(
    width: u16,
    height: u16,
    title: &str,
    status: &str,
    prompt: &str,
    input: &InputBuffer,
    records: &Records,
) -> (ops: Vec<DrawOp>)
    ensures
        ops.deep_view() == frame(
            (ScreenView {
                input: input@,
                prompt: prompt@,
                records: records.deep_view(),
                status: status@,
                title: title@,
            }),
            width,
            height,
        ),
{
    let ghost s = ScreenView {
        input: input@,
        prompt: prompt@,
        records: records.deep_view(),
        status: status@,
        title: title@,
    };
    let mut ops: Vec<DrawOp> = Vec::new();
    ops.push(DrawOp::Clear);
    ops.push(DrawOp::MoveTo { x: 0, y: 1 });
    ops.push(DrawOp::Highlight);
    ops.push(DrawOp::Text(bar(title, width as usize)));
    ops.push(DrawOp::Reset);
    let ghost head = ops.deep_view();
    let mut shown = scrollback_steps(records, input, height);
    let ghost middle = shown.deep_view();
    ops.append(&mut shown);
    assert(ops.deep_view() =~= head + middle);
    let status_row: u16 = if height == 0 {
        0
    } else {
        height - 1
    };
    let mut last = String::from_str(prompt);
    let line = input.current_line();
    last.append(line.as_str());
    ops.push(DrawOp::MoveTo { x: 0, y: status_row });
    ops.push(DrawOp::Highlight);
    ops.push(DrawOp::Text(bar(status, width as usize)));
    ops.push(DrawOp::MoveTo { x: 0, y: height });
    ops.push(DrawOp::Reset);
    ops.push(DrawOp::Text(last));
    assert(ops.deep_view() =~= frame(s, width, height));
    ops
}

} // verus!

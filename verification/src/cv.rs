//! The CV panel: a curriculum vitae loaded from a data file at startup.
//!
//! The data itself is plain values; reading and parsing the file belong to
//! the surrounding binary, which hands a finished [`Data`] in. The panel
//! draws a two-row contact header across the full width and the experience
//! entries in the right half of the remaining space, three rows each.

use vstd::prelude::*;

use crate::accent::Accent;
use crate::app::Tab;
use crate::draw;
use crate::geom::{self, Rect};

verus! {

/// Everything the CV panel shows.
#[derive(Debug)]
pub struct Data {
    pub author: String,
    pub contact: Contact,
    pub languages: Vec<String>,
    pub experience: Vec<Experience>,
    pub projects: Vec<Project>,
    pub interests: Vec<Interest>,
}

/// How to reach the author.
#[derive(Debug)]
pub struct Contact {
    pub email: String,
    pub phone: String,
    pub github: String,
    pub linkedin: String,
}

/// One position held: what, where, and from when to when (`end` empty while
/// it is the current one).
#[derive(Debug)]
pub struct Experience {
    pub what: String,
    pub place: String,
    pub start: String,
    pub end: Option<String>,
}

/// One project worth pointing at.
#[derive(Debug)]
pub struct Project {
    pub what: String,
    pub desc: String,
    pub link: String,
}

/// One interest, briefly described.
#[derive(Debug)]
pub struct Interest {
    pub what: String,
    pub desc: String,
}

/// The two rows of the contact header table, as the panel draws them: the
/// author and first contact line, then the document title and the rest.
pub open spec fn contact_rows(data: Data) -> Seq<Seq<Seq<char>>> {
    seq![
        seq![data.author@, data.contact.email@, data.contact.phone@],
        seq!["Curriculum Vitae"@, data.contact.github@, data.contact.linkedin@],
    ]
}

/// The three lines one experience entry is drawn as: place, role, start.
pub open spec fn experience_lines(e: Experience) -> Seq<Seq<char>> {
    seq![e.place@, e.what@, e.start@]
}

/// The experience entries' effect on the buffer: each entry's lines are
/// written into the top three rows of the space the entries before it left.
pub open spec fn entries_effect(before: draw::Cells, entries: Seq<Experience>, area: Rect) -> draw::Cells
    decreases entries.len(),
{
    if entries.len() == 0 {
        before
    } else {
        let split = geom::spec_split_top(area, 3);
        entries_effect(
            draw::lines_effect(before, experience_lines(entries[0]), split.0),
            entries.drop_first(),
            split.1,
        )
    }
}

/// The CV panel.
pub struct CV {
    pub data: Data,
}

impl CV {
    /// Wraps the loaded data into a panel.
    pub fn new(data: Data) -> (cv: CV)
        ensures
            cv.data == data,
    {
        CV { data }
    }
}

impl Tab for CV {
    open spec fn spec_title(&self) -> Seq<char> {
        "CV"@
    }

    open spec fn spec_color(&self) -> Accent {
        Accent::Blue
    }

    fn title(&self) -> (t: String) {
        "CV".to_owned()
    }

    fn color(&self) -> (c: Accent) {
        Accent::Blue
    }

    open spec fn render_effect(&self, before: draw::Cells, area: Rect) -> draw::Cells {
        let split = geom::spec_split_top(area, 2);
        let columns = geom::spec_split_left(split.1);
        entries_effect(
            draw::table_effect(before, contact_rows(self.data), split.0),
            self.data.experience@,
            columns.1,
        )
    }

    fn render(&self, area: Rect, buf: &mut ratatui::buffer::Buffer) {
        let split = geom::split_top(area, 2);
        let header = split.0;
        let rest = split.1;
        let mut row0: Vec<String> = Vec::new();
        row0.push(self.data.author.clone());
        row0.push(self.data.contact.email.clone());
        row0.push(self.data.contact.phone.clone());
        let mut row1: Vec<String> = Vec::new();
        row1.push("Curriculum Vitae".to_owned());
        row1.push(self.data.contact.github.clone());
        row1.push(self.data.contact.linkedin.clone());
        let mut rows: Vec<Vec<String>> = Vec::new();
        rows.push(row0);
        rows.push(row1);
        proof {
            assert(rows.deep_view() =~~= contact_rows(self.data));
        }
        draw::draw_three_column_table(&rows, header, buf);
        let columns = geom::split_left(rest);
        let mut acc = columns.1;
        let ghost drawn = draw::buffer_cells(*buf);
        proof {
            assert(self.data.experience@.skip(0) =~= self.data.experience@);
        }
        let mut i: usize = 0;
        while i < self.data.experience.len()
            invariant
                acc.wf(),
                i <= self.data.experience.len(),
                entries_effect(drawn, self.data.experience@, columns.1) == entries_effect(
                    draw::buffer_cells(*buf),
                    self.data.experience@.skip(i as int),
                    acc,
                ),
            decreases self.data.experience.len() - i,
        {
            let entry_split = geom::split_top(acc, 3);
            let entry = &self.data.experience[i];
            let mut lines: Vec<String> = Vec::new();
            lines.push(entry.place.clone());
            lines.push(entry.what.clone());
            lines.push(entry.start.clone());
            proof {
                assert(lines.deep_view() =~~= experience_lines(
                    self.data.experience@[i as int],
                ));
                assert(self.data.experience@.skip(i as int)[0] == self.data.experience@[
                    i as int
                ]);
            }
            draw::draw_lines(&lines, entry_split.0, buf);
            proof {
                assert(self.data.experience@.skip(i as int).drop_first() =~= self
                    .data
                    .experience@
                    .skip(i as int + 1));
            }
            acc = entry_split.1;
            i = i + 1;
        }
    }
}

} // verus!

use vstd::prelude::*;
use crate::layout::{
    filled_width, filled_width_spec, standard_width, standard_width_spec, wave_width,
    wave_width_spec,
};
use crate::text::{decimal, push_decimal, push_repeat, repeat};

verus! {

/// The look of a bar: one line of blocks, or a five-row sine wave.
#[derive(Clone, Copy, Debug, PartialEq, Eq, Structural)]
pub enum LoadingBarType {
    Standard,
    Wave,
}

/// Settings of a bar before it starts.
pub ghost struct BarSettings {
    pub total: nat,
    pub clear: bool,
    pub style: LoadingBarType,
}

/// A running bar: its settings and the steps taken so far.
pub ghost struct BarState {
    pub total: nat,
    pub step: nat,
    pub clear: bool,
    pub style: LoadingBarType,
}

/// The word in front of the counts.
pub open spec fn loading_word() -> Seq<char> {
    seq!['l', 'o', 'a', 'd', 'i', 'n', 'g']
}

/// The character a filled cell shows.
pub open spec fn block() -> char {
    '\u{2588}'
}

/// The view of an optional piece of text.
pub open spec fn text_view(t: Option<&str>) -> Option<Seq<char>> {
    match t {
        Some(x) => Some(x@),
        None => None,
    }
}

/// The label `"{text} {step}/{total} "`, or `" {step}/{total} "` without text.
pub open spec fn label_spec(text: Option<Seq<char>>, step: nat, total: nat) -> Seq<char> {
    let counts = seq![' '] + decimal(step) + seq!['/'] + decimal(total) + seq![' '];
    match text {
        Some(x) => x + counts,
        None => counts,
    }
}

/// The label that both styles draw: `"loading {step}/{total} "`.
pub open spec fn bar_label(step: nat, total: nat) -> Seq<char> {
    label_spec(Some(loading_word()), step, total)
}

/// The standard line on a terminal `w` columns wide:
/// `loading {step}/{total} |` then the filled blocks, the blank rest, and `|`.
pub open spec fn standard_line_spec(step: nat, total: nat, w: nat) -> Seq<char> {
    let usable = standard_width_spec(w);
    let filled = filled_width_spec(usable, step, total);
    bar_label(step, total) + seq!['|'] + repeat(block(), filled) + repeat(' ', (usable - filled) as nat)
        + seq!['|']
}

/// Columns of the wave bar at `step` of `total` on a terminal `w` columns wide.
pub open spec fn wave_columns_spec(step: nat, total: nat, w: nat) -> nat {
    wave_width_spec(w, bar_label(step, total).len())
}

/// Cell `x` of wave row `row`: a block where the column is filled and its
/// wave height is that row, else a space.
pub open spec fn wave_cell(heights: Seq<usize>, filled: nat, row: nat, x: int) -> char {
    if x < filled && heights[x] == row {
        block()
    } else {
        ' '
    }
}

/// The cells of wave row `row` over `usable` columns.
pub open spec fn wave_cells(heights: Seq<usize>, filled: nat, usable: nat, row: nat) -> Seq<char> {
    Seq::new(usable, |x: int| wave_cell(heights, filled, row, x))
}

/// Row `row` of the wave: the label on the middle row and blanks of the
/// same width on the others, a border, the cells and a border.
pub open spec fn wave_row_spec(
    label: Seq<char>,
    heights: Seq<usize>,
    filled: nat,
    usable: nat,
    row: nat,
) -> Seq<char> {
    let head = if row == 2 {
        label
    } else {
        repeat(' ', label.len())
    };
    head + seq!['|'] + wave_cells(heights, filled, usable, row) + seq!['|']
}

/// The five wave rows at `step` of `total` on a terminal `w` columns wide,
/// with `heights[x]` the wave height of column `x`.
pub open spec fn wave_rows_spec(step: nat, total: nat, w: nat, heights: Seq<usize>) -> Seq<
    Seq<char>,
> {
    let label = bar_label(step, total);
    let usable = wave_width_spec(w, label.len());
    let filled = filled_width_spec(usable, step, total);
    Seq::new(5, |i: int| wave_row_spec(label, heights, filled, usable, i as nat))
}

/// Lines, each followed by a newline.
pub open spec fn lines_text(lines: Seq<Seq<char>>) -> Seq<char>
    decreases lines.len(),
{
    if lines.len() == 0 {
        seq![]
    } else {
        lines_text(lines.drop_last()) + lines.last() + seq!['\n']
    }
}

/// The control sequences that clear the screen and move the cursor home.
pub open spec fn clear_codes() -> Seq<char> {
    seq!['\x1b', '[', '2', 'J', '\x1b', '[', 'H']
}

/// What one render pass of bar `b` writes, given the terminal's dimensions
/// (`None` where they are unavailable) and the wave heights of the columns.
pub open spec fn frame_spec(b: BarState, dims: Option<(usize, usize)>, heights: Seq<usize>) -> Seq<
    char,
> {
    let prefix = if b.clear {
        clear_codes()
    } else {
        seq![]
    };
    match dims {
        None => prefix,
        Some((w, _h)) => match b.style {
            LoadingBarType::Standard => prefix + lines_text(
                seq![standard_line_spec(b.step, b.total, w as nat)],
            ),
            LoadingBarType::Wave => prefix + lines_text(
                wave_rows_spec(b.step, b.total, w as nat, heights),
            ),
        },
    }
}

/// Whether `heights` gives one wave height per column wherever the render
/// pass of `b` draws a wave.
pub open spec fn heights_fit(b: BarState, dims: Option<(usize, usize)>, heights: Seq<usize>) -> bool {
    match dims {
        Some((w, _h)) => b.style == LoadingBarType::Wave ==> heights.len() == wave_columns_spec(
            b.step,
            b.total,
            w as nat,
        ),
        None => true,
    }
}

/// Fluent configuration of a bar; `init` turns it into a running bar.
pub struct LoadingBarBuilder {
    len: usize,
    should_clear: bool,
    bar_type: LoadingBarType,
}

/// A bar that counts steps towards a fixed total.
pub struct LoadingBar {
    len: usize,
    step: usize,
    should_clear: bool,
    bar_type: LoadingBarType,
}

impl View for LoadingBarBuilder {
    type V = BarSettings;

    closed spec fn view(&self) -> BarSettings {
        BarSettings { total: self.len as nat, clear: self.should_clear, style: self.bar_type }
    }
}

impl View for LoadingBar {
    type V = BarState;

    closed spec fn view(&self) -> BarState {
        BarState {
            total: self.len as nat,
            step: self.step as nat,
            clear: self.should_clear,
            style: self.bar_type,
        }
    }
}

impl LoadingBarBuilder {
    #[verifier::type_invariant]
    spec fn inv(&self) -> bool {
        self.len >= 1
    }

    /// Every frame first clears the screen and moves the cursor home.
    pub fn should_clear(self) -> (r: Self)
        ensures
            r@ == (BarSettings { clear: true, ..self@ }),
    {
        proof {
            use_type_invariant(&self);
        }
        Self { should_clear: true, ..self }
    }

    /// Draws the bar in the given style.
    pub fn of_type(self, bar_type: LoadingBarType) -> (r: Self)
        ensures
            r@ == (BarSettings { style: bar_type, ..self@ }),
    {
        proof {
            use_type_invariant(&self);
        }
        Self { bar_type, ..self }
    }

    /// Starts the bar at step zero.
    pub fn init(self) -> (r: LoadingBar)
        ensures
            r@ == (BarState { total: self@.total, step: 0, clear: self@.clear, style: self@.style }),
            r@.total >= 1,
    {
        proof {
            use_type_invariant(&self);
        }
        LoadingBar {
            len: self.len,
            step: 0,
            should_clear: self.should_clear,
            bar_type: self.bar_type,
        }
    }
}

impl LoadingBar {
    #[verifier::type_invariant]
    spec fn inv(&self) -> bool {
        self.len >= 1
    }

    /// A builder for a bar of `len` steps, not clearing, in the standard style.
    pub fn new(len: usize) -> (r: LoadingBarBuilder)
        requires
            len >= 1,
        ensures
            r@ == (BarSettings { total: len as nat, clear: false, style: LoadingBarType::Standard }),
    {
        LoadingBarBuilder { len, should_clear: false, bar_type: LoadingBarType::Standard }
    }

    /// The label `"{text} {step}/{total} "`, or `" {step}/{total} "` without text.
    pub fn loading_string(&self, with_text: Option<&str>) -> (r: String)
        ensures
            r@ == label_spec(text_view(with_text), self@.step, self@.total),
    {
        let mut r = String::new();
        if let Some(x) = with_text {
            r.append(x);
        }
        r.append(" ");
        push_decimal(&mut r, self.step);
        r.append("/");
        push_decimal(&mut r, self.len);
        r.append(" ");
        proof {
            reveal_strlit(" ");
            reveal_strlit("/");
        }
        assert(r@ =~= label_spec(text_view(with_text), self@.step, self@.total));
        r
    }

    /// The label that both styles draw.
    fn bar_label(&self) -> (r: String)
        ensures
            r@ == bar_label(self@.step, self@.total),
    {
        proof {
            reveal_strlit("loading");
        }
        assert("loading"@ =~= loading_word());
        self.loading_string(Some("loading"))
    }

    /// The standard line for a terminal `width` columns wide, without its newline.
    /// Past the total the label keeps counting and the bar stays full.
    pub fn render_standard(&self, width: usize) -> (r: String)
        ensures
            r@ == standard_line_spec(self@.step, self@.total, width as nat),
    {
        proof {
            use_type_invariant(self);
            reveal_strlit("|");
            reveal_strlit("\u{2588}");
            reveal_strlit(" ");
        }
        let usable = standard_width(width);
        let filled = filled_width(usable, self.step, self.len);
        let mut r = self.bar_label();
        r.append("|");
        push_repeat(&mut r, "\u{2588}", filled);
        push_repeat(&mut r, " ", usable - filled);
        r.append("|");
        assert(r@ =~= standard_line_spec(self@.step, self@.total, width as nat));
        r
    }

    /// Columns of the wave bar on a terminal `width` columns wide: one wave
    /// height is needed for each.
    pub fn wave_columns(&self, width: usize) -> (r: usize)
        ensures
            r == wave_columns_spec(self@.step, self@.total, width as nat),
    {
        let label = self.bar_label();
        wave_width(width, label.as_str().unicode_len())
    }

    /// The five rows of the wave for a terminal `width` columns wide, without
    /// newlines; `heights[x]` is the wave height of column `x`.
    pub fn render_wave(&self, width: usize, heights: &Vec<usize>) -> (r: Vec<String>)
        requires
            heights@.len() == wave_columns_spec(self@.step, self@.total, width as nat),
        ensures
            r@.len() == 5,
            forall|i: int|
                0 <= i < 5 ==> #[trigger] r@[i]@ == wave_rows_spec(
                    self@.step,
                    self@.total,
                    width as nat,
                    heights@,
                )[i],
            forall|i: int|
                0 <= i < 5 ==> #[trigger] r@[i]@.len() == wave_columns_spec(
                    self@.step,
                    self@.total,
                    width as nat,
                ) + bar_label(self@.step, self@.total).len() + 2,
            forall|i: int, x: int|
                #![trigger r@[i]@[bar_label(self@.step, self@.total).len() + 1 + x]]
                0 <= i < 5 && 0 <= x < wave_columns_spec(self@.step, self@.total, width as nat)
                    ==> (r@[i]@[bar_label(self@.step, self@.total).len() + 1 + x] == block()
                    <==> (x < filled_width_spec(
                    wave_columns_spec(self@.step, self@.total, width as nat),
                    self@.step,
                    self@.total,
                ) && heights@[x] == i)),
    {
        proof {
            use_type_invariant(self);
        }
        let label = self.bar_label();
        let label_len = label.as_str().unicode_len();
        let usable = wave_width(width, label_len);
        let filled = filled_width(usable, self.step, self.len);
        let ghost rows = wave_rows_spec(self@.step, self@.total, width as nat, heights@);
        let mut lines: Vec<String> = Vec::new();
        let mut i: usize = 0;
        while i < 5
            invariant
                i <= 5,
                lines@.len() == i,
                label_len == label@.len(),
                label@ == bar_label(self@.step, self@.total),
                usable == wave_width_spec(width as nat, label@.len()),
                filled == filled_width_spec(usable as nat, self@.step, self@.total),
                heights@.len() == usable,
                rows == wave_rows_spec(self@.step, self@.total, width as nat, heights@),
                forall|j: int| 0 <= j < i ==> #[trigger] lines@[j]@ == rows[j],
            decreases 5 - i,
        {
            proof {
                reveal_strlit("|");
                reveal_strlit(" ");
            }
            let mut line = String::new();
            if i == 2 {
                line.append(label.as_str());
            } else {
                push_repeat(&mut line, " ", label_len);
            }
            line.append("|");
            let ghost head = line@;
            let mut x: usize = 0;
            while x < usable
                invariant
                    x <= usable,
                    heights@.len() == usable,
                    line@ == head + wave_cells(heights@, filled as nat, x as nat, i as nat),
                decreases usable - x,
            {
                proof {
                    reveal_strlit("\u{2588}");
                    reveal_strlit(" ");
                }
                if x < filled && heights[x] == i {
                    line.append("\u{2588}");
                } else {
                    line.append(" ");
                }
                x = x + 1;
                assert(line@ =~= head + wave_cells(heights@, filled as nat, x as nat, i as nat));
            }
            line.append("|");
            assert(line@ =~= rows[i as int]);
            lines.push(line);
            i = i + 1;
        }
        proof {
            assert forall|i: int, x: int|
                0 <= i < 5 && 0 <= x < usable implies #[trigger] lines@[i]@[label_len + 1 + x]
                == wave_cell(heights@, filled as nat, i as nat, x) by {
                assert(lines@[i]@ == rows[i]);
            }
            assert forall|i: int| 0 <= i < 5 implies #[trigger] lines@[i]@.len() == usable
                + label_len + 2 by {
                assert(lines@[i]@ == rows[i]);
            }
        }
        lines
    }

    /// One render pass: the clear codes where the bar clears, then, where the
    /// terminal's dimensions are known, the bar's lines, each with a newline.
    /// Where they are unknown nothing is drawn. `heights[x]` is the wave
    /// height of column `x`; the standard style reads none.
    pub fn render(&self, dims: Option<(usize, usize)>, heights: &Vec<usize>) -> (r: String)
        requires
            heights_fit(self@, dims, heights@),
        ensures
            r@ == frame_spec(self@, dims, heights@),
            dims is None && !self@.clear ==> r@.len() == 0,
    {
        proof {
            reveal_strlit("\x1b[2J");
            reveal_strlit("\x1b[H");
            reveal_strlit("\n");
        }
        let mut r = String::new();
        if self.should_clear {
            r.append("\x1b[2J");
            r.append("\x1b[H");
        }
        let ghost prefix = r@;
        assert(prefix =~= if self@.clear {
            clear_codes()
        } else {
            seq![]
        });
        match dims {
            None => {},
            Some((w, _h)) => match self.bar_type {
                LoadingBarType::Standard => {
                    let line = self.render_standard(w);
                    r.append(line.as_str());
                    r.append("\n");
                    let ghost one = seq![line@];
                    assert(one.drop_last() =~= Seq::<Seq<char>>::empty());
                    assert(lines_text(one.drop_last()) =~= Seq::<char>::empty());
                    assert(lines_text(one) == lines_text(one.drop_last()) + line@ + seq!['\n']);
                    assert(r@ =~= prefix + lines_text(one));
                },
                LoadingBarType::Wave => {
                    let lines = self.render_wave(w, heights);
                    let ghost rows = wave_rows_spec(self@.step, self@.total, w as nat, heights@);
                    assert(rows.take(0) =~= Seq::<Seq<char>>::empty());
                    let mut j: usize = 0;
                    while j < 5
                        invariant
                            j <= 5,
                            lines@.len() == 5,
                            forall|i: int| 0 <= i < 5 ==> #[trigger] lines@[i]@ == rows[i],
                            rows.len() == 5,
                            r@ == prefix + lines_text(rows.take(j as int)),
                        decreases 5 - j,
                    {
                        proof {
                            reveal_strlit("\n");
                        }
                        r.append(lines[j].as_str());
                        r.append("\n");
                        assert(rows.take(j + 1).drop_last() =~= rows.take(j as int));
                        assert(r@ =~= prefix + lines_text(rows.take(j + 1)));
                        j = j + 1;
                    }
                    assert(rows.take(5) =~= rows);
                },
            },
        }
        r
    }

    /// Steps in the whole task.
    pub fn total(&self) -> (r: usize)
        ensures
            r == self@.total,
            r >= 1,
    {
        proof {
            use_type_invariant(self);
        }
        self.len
    }

    /// Steps taken so far.
    pub fn current_step(&self) -> (r: usize)
        ensures
            r == self@.step,
    {
        self.step
    }

    /// Whether every frame clears the screen first.
    pub fn clears(&self) -> (r: bool)
        ensures
            r == self@.clear,
    {
        self.should_clear
    }

    /// The bar's style.
    pub fn style(&self) -> (r: LoadingBarType)
        ensures
            r == self@.style,
    {
        self.bar_type
    }

    /// Takes one step. Steps past the total are counted too.
    pub fn step(&mut self)
        requires
            old(self)@.step < usize::MAX,
        ensures
            final(self)@ == (BarState { step: old(self)@.step + 1, ..old(self)@ }),
    {
        proof {
            use_type_invariant(&*self);
        }
        self.step = self.step + 1;
    }
}

} // verus!

use loading_bar::layout::{filled_width, standard_width, wave_width};
use loading_bar::{LoadingBar, LoadingBarType};

fn cells(line: &str) -> Vec<char> {
    line.chars().collect()
}

#[test]
fn wave() {
    let len = 100;
    let mut loader = LoadingBar::new(len)
        .should_clear()
        .of_type(LoadingBarType::Wave)
        .init();

    for _i in 0..100 {
        loader.step();
    }
    assert_eq!(loader.current_step(), 100);
    assert_eq!(loader.total(), 100);
    assert!(loader.clears());
    assert_eq!(loader.style(), LoadingBarType::Wave);
}

#[test]
fn builder_defaults() {
    let bar = LoadingBar::new(7).init();
    assert_eq!(bar.total(), 7);
    assert_eq!(bar.current_step(), 0);
    assert!(!bar.clears());
    assert_eq!(bar.style(), LoadingBarType::Standard);
}

#[test]
fn standard_half_way() {
    let mut bar = LoadingBar::new(100).init();
    for _i in 0..50 {
        bar.step();
    }
    let expected = format!("loading 50/100 |{}{}|", "█".repeat(25), " ".repeat(25));
    assert_eq!(bar.render_standard(80), expected);
    assert_eq!(bar.render(Some((80, 24)), &Vec::new()), format!("{}\n", expected));
}

#[test]
fn standard_ends() {
    let mut bar = LoadingBar::new(3).init();
    assert_eq!(bar.render_standard(40), format!("loading 0/3 |{}|", " ".repeat(10)));
    for _i in 0..3 {
        bar.step();
    }
    assert_eq!(bar.render_standard(40), format!("loading 3/3 |{}|", "█".repeat(10)));
}

#[test]
fn standard_narrow_terminal() {
    let bar = LoadingBar::new(10).init();
    assert_eq!(bar.render_standard(12), "loading 0/10 ||");
    assert_eq!(standard_width(29), 0);
    assert_eq!(standard_width(30), 0);
    assert_eq!(standard_width(31), 1);
}

#[test]
fn standard_past_total_stays_full() {
    let mut bar = LoadingBar::new(2).init();
    for _i in 0..3 {
        bar.step();
    }
    assert_eq!(bar.render_standard(34), "loading 3/2 |████|");
}

#[test]
fn filled_width_values() {
    assert_eq!(filled_width(50, 25, 100), 12);
    assert_eq!(filled_width(50, 0, 100), 0);
    assert_eq!(filled_width(50, 100, 100), 50);
    assert_eq!(filled_width(7, 1, 3), 2);
    assert_eq!(filled_width(7, 9, 3), 7);
    assert_eq!(filled_width(usize::MAX, usize::MAX - 1, usize::MAX), usize::MAX - 1);
}

#[test]
fn filled_width_never_shrinks() {
    for total in 1..20usize {
        for usable in 0..30usize {
            let mut last = 0;
            for s in 0..=total {
                let f = filled_width(usable, s, total);
                assert!(f >= last);
                assert!(f <= usable);
                last = f;
            }
            assert_eq!(filled_width(usable, 0, total), 0);
            assert_eq!(filled_width(usable, total, total), usable);
        }
    }
}

#[test]
fn wave_width_values() {
    assert_eq!(wave_width(40, 12), 26);
    assert_eq!(wave_width(14, 12), 0);
    assert_eq!(wave_width(13, 12), 0);
    assert_eq!(wave_width(5, 12), 0);
}

#[test]
fn wave_at_start_is_blank() {
    let bar = LoadingBar::new(4).of_type(LoadingBarType::Wave).init();
    assert_eq!(bar.wave_columns(40), 26);
    let heights: Vec<usize> = (0..26).map(|x| x % 6).collect();
    let lines = bar.render_wave(40, &heights);
    assert_eq!(lines.len(), 5);
    for (i, line) in lines.iter().enumerate() {
        let head = if i == 2 { "loading 0/4 ".to_string() } else { " ".repeat(12) };
        assert_eq!(*line, format!("{}|{}|", head, " ".repeat(26)));
        assert_eq!(cells(line).len(), 40);
    }
}

#[test]
fn wave_marks_filled_columns() {
    let mut bar = LoadingBar::new(4).of_type(LoadingBarType::Wave).init();
    bar.step();
    bar.step();
    let heights: Vec<usize> = (0..26).map(|x| x % 5).collect();
    let lines = bar.render_wave(40, &heights);
    assert_eq!(lines.len(), 5);
    assert!(lines[2].starts_with("loading 2/4 |"));
    for (i, line) in lines.iter().enumerate() {
        let c = cells(line);
        assert_eq!(c.len(), 40);
        assert_eq!(c[12], '|');
        assert_eq!(c[39], '|');
        for x in 0..26 {
            let marked = x < 13 && heights[x] == i;
            assert_eq!(c[13 + x] == '█', marked);
        }
    }
}

#[test]
fn wave_render_pass() {
    let bar = LoadingBar::new(4).of_type(LoadingBarType::Wave).init();
    let heights = vec![0; 26];
    let out = bar.render(Some((40, 10)), &heights);
    let lines: Vec<&str> = out.split_terminator('\n').collect();
    assert_eq!(lines.len(), 5);
    assert_eq!(out.matches('\n').count(), 5);
    assert_eq!(lines[2], format!("loading 0/4 |{}|", " ".repeat(26)));
}

#[test]
fn no_terminal_no_output() {
    let mut bar = LoadingBar::new(10).init();
    bar.step();
    assert_eq!(bar.render(None, &Vec::new()), "");
    let wave = LoadingBar::new(10).of_type(LoadingBarType::Wave).init();
    assert_eq!(wave.render(None, &Vec::new()), "");
}

#[test]
fn clearing_comes_first() {
    let bar = LoadingBar::new(10).should_clear().init();
    assert_eq!(bar.render(None, &Vec::new()), "\x1b[2J\x1b[H");
    let out = bar.render(Some((31, 5)), &Vec::new());
    assert_eq!(out, "\x1b[2J\x1b[Hloading 0/10 | |\n");
}

#[test]
fn labels() {
    let mut bar = LoadingBar::new(1234).init();
    for _i in 0..105 {
        bar.step();
    }
    assert_eq!(bar.loading_string(None), " 105/1234 ");
    assert_eq!(bar.loading_string(Some("loading")), "loading 105/1234 ");
    assert_eq!(bar.loading_string(Some("")), " 105/1234 ");
}

#[test]
fn add_counts() {
    assert_eq!(loading_bar::add(2, 2), 4);
    assert_eq!(loading_bar::add(0, u64::MAX), u64::MAX);
}

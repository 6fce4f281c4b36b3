use scratch_reveal::mask::Mask;
use scratch_reveal::renderer::{get_characters, render};
use scratch_reveal::{AREA, HEIGHT, WIDTH};

const FILLER_GRID: &str = "\n0x0x0x0x0x0x0x0x0x0x0x0x0x0x0x0x0x0x0x0\n0x0x0x0x0x0x0x0x0x0x0x0x0x0x0x0x0x0x0x0\n0x0x0x0x0x0x0x0x0x0x0x0x0x0x0x0x0x0x0x0\n0x0x0x0x0x0x0x0x0x0x0x0x0x0x0x0x0x0x0x0\n0x0x0x0x0x0x0x0x0x0x0x0x0x0x0x0x0x0x0x0\n0x0x0x0x0x0x0x0x0x0x0x0x0x0x0x0x0x0x0x0";

const REVEALED_GRID: &str = "\nFeFeFeFeFeFeFeFeFeFeFeFeFeFeFeFeFeFeFeF\nFe Dear people at Oxide, eFeFeFeFeFeFeF\nFe you are an inspiration! eFeFeFeFeFeF\nFe It'd be a dream to work with you. eF\nFe Would you like to meet? eFeFeFeFeFeF\nFeFeFeFeFeFeFeFeFeFeFeFeFeFeFeFeFeFeFeF";

#[test]
fn fresh_mask_renders_pure_filler() {
    let mask = Mask::new();
    let text = render(&mask);
    assert_eq!(text, FILLER_GRID);

    // Six logical lines of WIDTH - 1 non-separator characters each.
    let lines: Vec<&str> = text.split('\n').collect();
    assert_eq!(lines[0], "");
    assert_eq!(lines.len(), 1 + HEIGHT);
    for line in &lines[1..] {
        assert_eq!(line.len(), WIDTH - 1);
        assert!(line.chars().all(|c| c == 'x' || c == '0'));
    }
}

#[test]
fn filler_alternates_by_column_parity() {
    let mask = Mask::new();
    let chars = get_characters(&mask);
    assert_eq!(chars.len(), AREA);
    for (i, c) in chars.iter().enumerate() {
        let x = i % WIDTH;
        if x == 0 {
            assert_eq!(*c, '\n');
        } else if x % 2 == 0 {
            assert_eq!(*c, 'x');
        } else {
            assert_eq!(*c, '0');
        }
    }
}

#[test]
fn full_reveal_shows_the_message() {
    let mut mask = Mask::new();
    for i in 0..AREA {
        mask.set(i, true);
    }
    assert_eq!(render(&mask), REVEALED_GRID);
}

#[test]
fn render_is_deterministic() {
    let mut mask = Mask::new();
    assert_eq!(render(&mask), render(&mask));

    mask.set(87, true);
    mask.set(123, true);
    let first = render(&mask);
    let second = render(&mask);
    assert_eq!(first, second);
}

#[test]
fn one_revealed_row_exposes_exactly_its_text() {
    let mut mask = Mask::new();
    // Reveal every cell of interior row 2, nothing else.
    for x in 0..WIDTH {
        mask.set(2 * WIDTH + x, true);
    }
    let text = render(&mask);
    let lines: Vec<&str> = text.split('\n').collect();
    assert_eq!(lines[3], "Fe you are an inspiration! eFeFeFeFeFeF");
    for (n, line) in lines.iter().enumerate() {
        if n != 0 && n != 3 {
            assert_eq!(*line, "0x0x0x0x0x0x0x0x0x0x0x0x0x0x0x0x0x0x0x0");
        }
    }
}

#[test]
fn revealed_cell_past_text_end_is_filler() {
    let mut mask = Mask::new();
    // Row 1 text is 26 characters long; column 30 lies past its end.
    mask.set(WIDTH + 30, true);
    let text = render(&mask);
    let lines: Vec<&str> = text.split('\n').collect();
    assert_eq!(lines[2].chars().nth(29), Some('e'));
}

#[test]
fn revealed_padding_cell_is_filler_not_text() {
    let mut mask = Mask::new();
    // Columns 1 and 2 sit inside the reserved padding of row 1.
    mask.set(WIDTH + 1, true);
    mask.set(WIDTH + 2, true);
    let text = render(&mask);
    let lines: Vec<&str> = text.split('\n').collect();
    assert_eq!(&lines[2][..2], "Fe");
}

use terminal::size::{GridSize, TermSize, WindowSize};
use terminal::terminal::{Msg, Terminal};

fn grid(num_lines: usize, num_columns: usize) -> GridSize {
    GridSize { num_lines, num_columns, cell_width: 5, line_height: 7 }
}

#[test]
fn a_grid_counts_its_screen_only() {
    let size = grid(6, 20);
    assert_eq!(size.screen_lines(), 6);
    assert_eq!(size.total_lines(), 6);
    assert_eq!(size.columns(), 20);
}

#[test]
fn a_pty_has_the_size_of_its_grid() {
    assert_eq!(
        grid(6, 20).into_window_size(),
        WindowSize { num_lines: 6, num_cols: 20, cell_width: 5, cell_height: 7 }
    );
    assert_eq!(
        grid(65535, 65536 + 3).into_window_size(),
        WindowSize { num_lines: 65535, num_cols: 3, cell_width: 5, cell_height: 7 }
    );
}

#[test]
fn resizing_reaches_the_pty_and_the_screen() {
    let terminal = Terminal::<(), (), ()> { title: String::new(), event_stack: vec![] };
    let size = grid(6, 20).into_window_size();
    let (message, screen) = terminal.set_size(size);
    assert_eq!(message, Msg::Resize(size));
    assert_eq!(screen, TermSize { columns: 20, screen_lines: 6 });
}

#[test]
fn the_pty_is_shut_down_with_the_terminal() {
    let terminal = Terminal::<(), (), ()> { title: String::new(), event_stack: vec![] };
    assert_eq!(terminal.shutdown_message(), Msg::Shutdown);
}

use territory_grid::grid::{init_grid, GridError, Tile};
use territory_grid::identity::{Identity, Registry};

fn owned(owner: Identity, resources: u16) -> Tile {
    Tile { owner, resources }
}

fn blank() -> Tile {
    Tile { owner: Identity::Unowned, resources: 0 }
}

fn assert_layout(size: usize, res: u16) {
    let g = init_grid(size, res, Registry::client()).unwrap();
    assert_eq!(g.size(), size);
    for r in 0..size {
        for c in 0..size {
            let expected = if r == size - 1 && c == size - 1 {
                owned(Identity::PlayerC, res)
            } else if r == 0 && c == size - 1 {
                owned(Identity::PlayerB, res)
            } else if r == 0 && c == 0 {
                owned(Identity::PlayerA, res)
            } else {
                blank()
            };
            assert_eq!(g.tile(r, c), expected, "tile ({}, {})", r, c);
        }
    }
}

#[test]
fn corners_of_sizes_two_to_seven() {
    for size in 2..8 {
        assert_layout(size, 9);
        assert_layout(size, 0);
        assert_layout(size, u16::MAX);
    }
}

#[test]
fn two_by_two_leaves_bottom_left_unowned() {
    let g = init_grid(2, 4, Registry::client()).unwrap();
    assert_eq!(g.tile(0, 0), owned(Identity::PlayerA, 4));
    assert_eq!(g.tile(0, 1), owned(Identity::PlayerB, 4));
    assert_eq!(g.tile(1, 1), owned(Identity::PlayerC, 4));
    assert_eq!(g.tile(1, 0), blank());
}

#[test]
fn size_zero_is_invalid() {
    assert_eq!(init_grid(0, 9, Registry::client()).err(), Some(GridError::InvalidDimension));
    assert_eq!(init_grid(0, 0, Registry::enclave()).err(), Some(GridError::InvalidDimension));
}

#[test]
fn size_one_goes_to_third_player() {
    let g = init_grid(1, 7, Registry::client()).unwrap();
    assert_eq!(g.size(), 1);
    assert_eq!(g.tile(0, 0), owned(Identity::PlayerC, 7));
    assert_eq!(g.to_string(), "(C, 7) \n");
}

#[test]
fn five_by_five_with_nine() {
    let g = init_grid(5, 9, Registry::client()).unwrap();
    let lines = g.lines();
    assert_eq!(lines.len(), 5);
    let mut plain = 0;
    for (i, line) in lines.iter().enumerate() {
        let tokens: Vec<&str> = line.trim_end().split(") (").collect();
        assert_eq!(tokens.len(), 5, "line {}", i);
        for (j, _) in tokens.iter().enumerate() {
            let is_corner = (i == 0 && j == 0) || (i == 0 && j == 4) || (i == 4 && j == 4);
            if !is_corner {
                plain += 1;
            }
        }
    }
    assert_eq!(plain, 22);
    assert!(lines[0].starts_with("(A, 9)"));
    assert!(lines[0].trim_end().ends_with("(B, 9)"));
    assert!(lines[4].trim_end().ends_with("(C, 9)"));
    assert_eq!(lines[0], "(A, 9) (X, 0) (X, 0) (X, 0) (B, 9) ");
    for line in &lines[1..4] {
        assert_eq!(line, "(X, 0) (X, 0) (X, 0) (X, 0) (X, 0) ");
    }
    assert_eq!(lines[4], "(X, 0) (X, 0) (X, 0) (X, 0) (C, 9) ");
    let text = g.to_string();
    assert_eq!(text.matches("(X, 0)").count(), 22);
    assert_eq!(
        text,
        "(A, 9) (X, 0) (X, 0) (X, 0) (B, 9) \n\
         (X, 0) (X, 0) (X, 0) (X, 0) (X, 0) \n\
         (X, 0) (X, 0) (X, 0) (X, 0) (X, 0) \n\
         (X, 0) (X, 0) (X, 0) (X, 0) (X, 0) \n\
         (X, 0) (X, 0) (X, 0) (X, 0) (C, 9) \n"
    );
}

#[test]
fn formatting_twice_gives_same_text_and_keeps_tiles() {
    let g = init_grid(4, 12, Registry::client()).unwrap();
    let first = g.to_string();
    let second = g.to_string();
    assert_eq!(first, second);
    assert_eq!(g.lines(), g.lines());
    assert_eq!(g.tile(0, 0), owned(Identity::PlayerA, 12));
    assert_eq!(g.tile(0, 3), owned(Identity::PlayerB, 12));
    assert_eq!(g.tile(3, 3), owned(Identity::PlayerC, 12));
    assert_eq!(g.tile(2, 1), blank());
}

#[test]
fn tile_renders_with_registry_symbol() {
    let client = Registry::client();
    let enclave = Registry::enclave();
    assert_eq!(owned(Identity::PlayerA, 9).render(&client), "(A, 9)");
    assert_eq!(owned(Identity::PlayerB, 0).render(&client), "(B, 0)");
    assert_eq!(owned(Identity::PlayerC, 65535).render(&client), "(C, 65535)");
    assert_eq!(blank().render(&client), "(X, 0)");
    assert_eq!(blank().render(&enclave), "(_, 0)");
    assert_eq!(owned(Identity::Unowned, 10).render(&client), "(X, 10)");
    assert_eq!(owned(Identity::PlayerA, 1203).render(&client), "(A, 1203)");
}

#[test]
fn registry_symbols_are_distinct() {
    for reg in [Registry::client(), Registry::enclave()] {
        let ids = [Identity::PlayerA, Identity::PlayerB, Identity::PlayerC, Identity::Unowned];
        for x in ids {
            for y in ids {
                if x != y {
                    assert_ne!(reg.symbol(x), reg.symbol(y));
                }
            }
        }
    }
    assert_eq!(Registry::client().symbol(Identity::Unowned), 'X');
    assert_eq!(Registry::enclave().symbol(Identity::Unowned), '_');
}

#[test]
fn grid_keeps_its_registry() {
    let g = init_grid(3, 1, Registry::enclave()).unwrap();
    assert_eq!(g.registry().symbol(Identity::Unowned), '_');
    assert_eq!(g.lines()[1], "(_, 0) (_, 0) (_, 0) ");
}

use game_of_life::engine::WORKERS;
use game_of_life::Pool;

fn state(pool: &Pool) -> Vec<Vec<bool>> {
    let mut state = Vec::new();
    for r in 0..pool.height() {
        let mut row = Vec::new();
        for c in 0..pool.width() {
            row.push(pool.get_cell(r, c));
        }
        state.push(row);
    }
    state
}

fn pool_of(cells: &[Vec<bool>]) -> Pool {
    let width = cells.first().map_or(0, |row| row.len());
    let mut pool = Pool::new(width as u32, cells.len() as u32);
    for (r, row) in cells.iter().enumerate() {
        for (c, alive) in row.iter().enumerate() {
            pool.set_cell(r as u32, c as u32, *alive);
        }
    }
    pool
}

/// One generation, computed cell by cell on a copy with signed coordinates.
fn naive_step(cells: &[Vec<bool>]) -> Vec<Vec<bool>> {
    let height = cells.len() as i64;
    let mut next = Vec::new();
    for r in 0..height {
        let width = cells[r as usize].len() as i64;
        let mut row = Vec::new();
        for c in 0..width {
            let mut neighbors = 0;
            for dr in -1..=1i64 {
                for dc in -1..=1i64 {
                    let (nr, nc) = (r + dr, c + dc);
                    let inside = 0 <= nr && nr < height && 0 <= nc && nc < width;
                    if (dr, dc) != (0, 0) && inside && cells[nr as usize][nc as usize] {
                        neighbors += 1;
                    }
                }
            }
            let alive = cells[r as usize][c as usize];
            row.push(neighbors == 3 || (alive && neighbors == 2));
        }
        next.push(row);
    }
    next
}

fn soup(width: u32, height: u32) -> Pool {
    let mut pool = Pool::new(width, height);
    let mut seed = 0x2545_f491u32;
    for r in 0..height {
        for c in 0..width {
            seed ^= seed << 13;
            seed ^= seed >> 17;
            seed ^= seed << 5;
            pool.set_cell(r, c, seed % 3 == 0);
        }
    }
    pool
}

#[test]
fn step() {
    let mut pool = Pool::new(3, 3);
    pool.set_cell(0, 1, true);
    pool.set_cell(1, 1, true);
    pool.set_cell(2, 1, true);
    pool.step();
    assert_eq!(
        state(&pool),
        vec![
            vec![false, false, false],
            vec![true, true, true],
            vec![false, false, false]
        ]
    )
}

#[test]
fn blinker_has_period_two() {
    let vertical = vec![
        vec![false, true, false],
        vec![false, true, false],
        vec![false, true, false],
    ];
    let horizontal = vec![
        vec![false, false, false],
        vec![true, true, true],
        vec![false, false, false],
    ];
    let mut pool = pool_of(&vertical);
    pool.step();
    assert_eq!(state(&pool), horizontal);
    pool.step();
    assert_eq!(state(&pool), vertical);
    pool.step();
    assert_eq!(state(&pool), horizontal);
}

#[test]
fn lone_cell_has_no_neighbors_and_dies() {
    let mut pool = Pool::new(1, 1);
    pool.set_cell(0, 0, true);
    assert_eq!(pool.count_alive_neighbors(0, 0), 0);
    pool.step();
    assert!(!pool.get_cell(0, 0));
    assert_eq!(pool.width(), 1);
    assert_eq!(pool.height(), 1);
}

#[test]
fn neighbors_are_counted_without_wrapping() {
    let full = pool_of(&vec![vec![true; 3]; 3]);
    let counts: Vec<Vec<u8>> = (0..3)
        .map(|r| (0..3).map(|c| full.count_alive_neighbors(r, c)).collect())
        .collect();
    assert_eq!(counts, vec![vec![3, 5, 3], vec![5, 8, 5], vec![3, 5, 3]]);

    let mut edges = Pool::new(4, 3);
    edges.set_cell(0, 0, true);
    edges.set_cell(2, 3, true);
    edges.set_cell(1, 3, true);
    assert_eq!(edges.count_alive_neighbors(0, 3), 1);
    assert_eq!(edges.count_alive_neighbors(2, 0), 0);
    assert_eq!(edges.count_alive_neighbors(0, 1), 1);
    assert_eq!(edges.count_alive_neighbors(1, 2), 2);
    assert_eq!(edges.count_alive_neighbors(1, 3), 1);
    assert_eq!(edges.count_alive_neighbors(0, 0), 0);
}

#[test]
fn neighbors_in_a_single_row_or_column() {
    let row = pool_of(&[vec![true, true, true, false]]);
    assert_eq!(row.count_alive_neighbors(0, 0), 1);
    assert_eq!(row.count_alive_neighbors(0, 1), 2);
    assert_eq!(row.count_alive_neighbors(0, 3), 1);
    let column = pool_of(&[vec![true], vec![false], vec![true]]);
    assert_eq!(column.count_alive_neighbors(0, 0), 0);
    assert_eq!(column.count_alive_neighbors(1, 0), 2);
}

#[test]
fn rule_is_conways() {
    for neighbors in 0..=8u8 {
        assert_eq!(
            Pool::get_next_state(true, neighbors),
            neighbors == 2 || neighbors == 3
        );
        assert_eq!(Pool::get_next_state(false, neighbors), neighbors == 3);
    }
}

#[test]
fn block_is_still() {
    let block = vec![
        vec![false, false, false, false],
        vec![false, true, true, false],
        vec![false, true, true, false],
        vec![false, false, false, false],
    ];
    let mut pool = pool_of(&block);
    pool.step();
    assert_eq!(state(&pool), block);
}

#[test]
fn glider_travels_south_east() {
    let mut pool = Pool::new(6, 6);
    pool.merge(Pool::glider_south_east());
    for _ in 0..4 {
        pool.step();
    }
    let mut expected = Pool::new(6, 6);
    expected.merge(Pool::glider_south_east().with_offset(1, 1));
    assert_eq!(state(&pool), state(&expected));
}

#[test]
fn step_reads_only_the_grid_before_it() {
    let mut pool = soup(17, 13);
    for _ in 0..5 {
        let expected = naive_step(&state(&pool));
        pool.step();
        assert_eq!(state(&pool), expected);
    }
}

#[test]
fn every_worker_count_gives_the_same_generation() {
    let start = soup(9, 11);
    let expected = naive_step(&state(&start));
    for workers in 1..=start.height() + 3 {
        let mut pool = pool_of(&state(&start));
        pool.step_with_workers(workers);
        assert_eq!(state(&pool), expected, "{} workers", workers);
    }
    let mut pool = pool_of(&state(&start));
    pool.step_with_workers(u32::MAX);
    assert_eq!(state(&pool), expected);
}

#[test]
fn step_is_a_no_op_without_cells() {
    let mut empty = Pool::new(0, 0);
    empty.step();
    assert_eq!(empty.height(), 0);
    assert_eq!(empty.width(), 0);
    let mut no_columns = Pool::new(0, 4);
    no_columns.step();
    assert_eq!(no_columns.height(), 4);
    assert_eq!(no_columns.width(), 0);
    let mut no_rows = Pool::new(4, 0);
    no_rows.step_with_workers(3);
    assert_eq!(no_rows.height(), 0);
}

#[test]
fn fewer_rows_than_workers() {
    assert_eq!(WORKERS, 6);
    let mut pool = pool_of(&[vec![true, true, true], vec![false, true, false]]);
    assert_eq!(pool.slices(WORKERS), vec![(0, 1), (1, 2)]);
    pool.step();
    assert_eq!(
        state(&pool),
        vec![vec![true, true, true], vec![true, true, true]]
    );
}

#[test]
fn slices_cut_the_rows_in_order() {
    let pool = Pool::new(2, 10);
    assert_eq!(
        pool.slices(6),
        vec![(0, 1), (1, 3), (3, 5), (5, 6), (6, 8), (8, 10)]
    );
    assert_eq!(pool.slices(1), vec![(0, 10)]);
    assert_eq!(pool.slices(3), vec![(0, 3), (3, 6), (6, 10)]);
    assert_eq!(pool.slices(10).len(), 10);
    assert_eq!(pool.slices(11).len(), 10);
    assert_eq!(pool.slices(u32::MAX)[9], (9, 10));
    assert_eq!(Pool::new(3, 0).slices(6), Vec::<(u32, u32)>::new());
    assert_eq!(pool.slices(0), Vec::<(u32, u32)>::new());
}

#[test]
fn part_holds_the_rows_of_its_slice() {
    let pool = soup(8, 7);
    let expected = naive_step(&state(&pool));
    assert_eq!(pool.next_state_part(0, 7), expected);
    assert_eq!(pool.next_state_part(2, 5), expected[2..5].to_vec());
    assert_eq!(pool.next_state_part(4, 4), Vec::<Vec<bool>>::new());
    assert_eq!(state(&pool), state(&soup(8, 7)));
}

#[test]
fn commit_joins_the_parts_in_order() {
    let mut pool = soup(5, 6);
    let expected = naive_step(&state(&pool));
    let parts: Vec<Vec<Vec<bool>>> = pool
        .slices(4)
        .iter()
        .map(|&(start, stop)| pool.next_state_part(start, stop))
        .collect();
    assert_eq!(parts.len(), 4);
    assert!(pool.commit(parts));
    assert_eq!(state(&pool), expected);
}

#[test]
fn commit_refuses_another_shape() {
    let mut pool = Pool::glider_south_east();
    let before = state(&pool);
    assert!(!pool.commit(vec![vec![vec![true; 3]; 2]]));
    assert_eq!(state(&pool), before);
    assert!(!pool.commit(vec![vec![vec![true; 3]; 2], vec![vec![true; 2]; 1]]));
    assert_eq!(state(&pool), before);
    assert!(!pool.commit(Vec::new()));
    assert_eq!(state(&pool), before);
    assert!(pool.commit(vec![vec![vec![true; 3]; 2], vec![], vec![vec![false; 3]; 1]]));
    assert_eq!(
        state(&pool),
        vec![vec![true; 3], vec![true; 3], vec![false; 3]]
    );
}

#[test]
fn no_slice_is_empty_and_none_is_skipped() {
    for height in 1..40u32 {
        let pool = Pool::new(1, height);
        for workers in 1..50u32 {
            let plan = pool.slices(workers);
            assert_eq!(plan.len() as u32, workers.min(height));
            assert_eq!(plan[0].0, 0);
            assert_eq!(plan[plan.len() - 1].1, height);
            for t in 0..plan.len() {
                assert!(plan[t].0 < plan[t].1);
                if t > 0 {
                    assert_eq!(plan[t - 1].1, plan[t].0);
                }
            }
        }
    }
}

use oxicode_tui::row_plan::{plan_rows, Placement, PlanItem};

fn items(blocks: &[(usize, usize)], cells: usize) -> Vec<PlanItem> {
    let mut v = Vec::new();
    for &(b, n) in blocks {
        for _ in 0..n {
            v.push(PlanItem { block: b, cells: Some(cells) });
        }
    }
    v
}

#[test]
fn squeezed_blocks_become_glyph_rows_and_cards_and_the_banner_row_is_kept() {
    let it = items(&[(0, 3), (1, 3), (2, 3), (3, 3)], 10);
    let ids = vec![0, 1, 2, 3];
    let rows = vec![0, 1, 2, 3];
    let naturals = vec![3, 3, 3, 3];
    let (plan, banner) = plan_rows(&it, 0, 8, 80, 1, &ids, &rows, &naturals);
    assert_eq!(banner, Some(7));
    // The ladder decides on entering a block; the block's later rows
    // then take their natural rows as the walk goes on.
    assert_eq!(
        plan,
        vec![
            Placement::Line { item: 1, y: 0, height: 1 },
            Placement::Line { item: 2, y: 1, height: 1 },
            Placement::Glyph { block: 1, y: 2 },
            Placement::Line { item: 4, y: 3, height: 1 },
            Placement::Line { item: 5, y: 4, height: 1 },
            Placement::Card { block: 2, y: 5 },
        ]
    );
}

#[test]
fn roomy_blocks_take_their_wrapped_rows_cut_at_the_bottom() {
    let it = vec![
        PlanItem { block: 5, cells: Some(0) },
        PlanItem { block: 5, cells: None },
        PlanItem { block: 5, cells: Some(170) },
    ];
    let (plan, banner) = plan_rows(&it, 2, 6, 80, 0, &vec![5], &vec![4], &vec![4]);
    assert_eq!(banner, None);
    assert_eq!(
        plan,
        vec![Placement::Line { item: 0, y: 2, height: 1 }, Placement::Line { item: 2, y: 4, height: 2 }]
    );
    // Three rows of text with one row left: the last line is cut to it.
    let (plan, _) = plan_rows(&it, 2, 5, 80, 0, &vec![5], &vec![4], &vec![4]);
    assert_eq!(plan[1], Placement::Line { item: 2, y: 4, height: 1 });
}

use axraw::dcache::{clean_dcache_range, get_dcache_line_size, invalidate_dcache_range, DcacheOp, DcacheWalk};

const CTR_64: usize = 4 << 16;

fn ops(mut walk: DcacheWalk) -> Vec<DcacheOp> {
    let mut ops = vec![];
    while let Some(op) = walk.next() {
        ops.push(op);
    }
    assert_eq!(walk.next(), None);
    ops
}

#[test]
fn the_line_size_comes_from_four_bits_of_the_register() {
    assert_eq!(get_dcache_line_size(0), 4);
    assert_eq!(get_dcache_line_size(CTR_64), 64);
    assert_eq!(get_dcache_line_size(0x8444_c004), 64);
    assert_eq!(get_dcache_line_size(15 << 16), 131072);
}

#[test]
fn an_empty_range_needs_nothing() {
    assert_eq!(ops(clean_dcache_range(CTR_64, 100, 0)), vec![]);
    assert_eq!(ops(invalidate_dcache_range(CTR_64, usize::MAX, 0)), vec![]);
}

#[test]
fn a_range_is_cleaned_line_by_line() {
    assert_eq!(
        ops(clean_dcache_range(CTR_64, 100, 200)),
        vec![
            DcacheOp::Clean(64),
            DcacheOp::Clean(128),
            DcacheOp::Clean(192),
            DcacheOp::Clean(256),
            DcacheOp::Barrier,
        ]
    );
}

#[test]
fn an_aligned_range_stops_at_its_end() {
    assert_eq!(
        ops(invalidate_dcache_range(CTR_64, 128, 128)),
        vec![DcacheOp::Invalidate(128), DcacheOp::Invalidate(192), DcacheOp::Barrier]
    );
}

#[test]
fn one_byte_takes_one_line() {
    assert_eq!(
        ops(clean_dcache_range(CTR_64, 191, 1)),
        vec![DcacheOp::Clean(128), DcacheOp::Barrier]
    );
    assert_eq!(
        ops(clean_dcache_range(CTR_64, 191, 2)),
        vec![DcacheOp::Clean(128), DcacheOp::Clean(192), DcacheOp::Barrier]
    );
}

#[test]
fn every_byte_is_covered_once_and_no_line_is_outside() {
    for addr in 0..70 {
        for size in 1..70 {
            let ops = ops(clean_dcache_range(2 << 16, addr, size));
            let lines: Vec<usize> = ops[..ops.len() - 1]
                .iter()
                .map(|op| match op {
                    DcacheOp::Clean(line) => *line,
                    _ => panic!("not a line"),
                })
                .collect();
            for byte in addr..addr + size {
                assert_eq!(lines.iter().filter(|line| (**line..**line + 16).contains(&byte)).count(), 1);
            }
            for line in lines {
                assert_eq!(line % 16, 0);
                assert!(line < addr + size && addr < line + 16);
            }
            assert_eq!(ops[ops.len() - 1], DcacheOp::Barrier);
        }
    }
}

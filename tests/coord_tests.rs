use ultimate_tictactoe::coord::{Global, Local};

fn local_at(i: u8) -> Local {
    Local::new(i % 3, i / 3)
}

#[test]
fn local_round_trip_every_cell() {
    for y in 0..3u8 {
        for x in 0..3u8 {
            let l = Local::new(x, y);
            assert_eq!(l.get_x(), x);
            assert_eq!(l.get_y(), y);
            assert_eq!(l.index(), (3 * y + x) as usize);
        }
    }
}

#[test]
fn local_index_of_corners() {
    assert_eq!(Local::new(0, 0).index(), 0);
    assert_eq!(Local::new(2, 0).index(), 2);
    assert_eq!(Local::new(0, 2).index(), 6);
    assert_eq!(Local::new(2, 2).index(), 8);
}

#[test]
fn global_round_trip_every_position() {
    for r in 0..9u8 {
        for c in 0..9u8 {
            let region = local_at(r);
            let cell = local_at(c);
            let g = Global::new(region, cell);
            assert_eq!(g.get_region(), region);
            assert_eq!(g.get_local(), cell);
        }
    }
}

#[test]
fn global_packs_region_then_cell() {
    let g = Global::new(Local::new(1, 1), Local::new(2, 0));
    assert_eq!(g.get_region().index(), 4);
    assert_eq!(g.get_local().index(), 2);
    assert_eq!(g.get_region().get_x(), 1);
    assert_eq!(g.get_local().get_y(), 0);
}

#[test]
fn iter_yields_nine_distinct_in_row_major_order() {
    let all = Local::iter();
    assert_eq!(all.len(), 9);
    for (i, l) in all.iter().enumerate() {
        assert_eq!(l.index(), i);
        assert_eq!(*l, Local::new((i % 3) as u8, (i / 3) as u8));
    }
    for i in 0..9 {
        for j in 0..9 {
            if i != j {
                assert_ne!(all[i], all[j]);
            }
        }
    }
}

#[test]
fn iter_is_restartable() {
    assert_eq!(Local::iter(), Local::iter());
}

fn reassemble_local_coord(n: u8) -> bool {
    let local_coord = local_at(n % 9);
    local_coord == Local::new(local_coord.get_x(), local_coord.get_y())
}

fn reassemble_global_coord(r: u8, c: u8) -> bool {
    let global_coord = Global::new(local_at(r % 9), local_at(c % 9));
    global_coord == Global::new(global_coord.get_region(), global_coord.get_local())
}

fn disassemble_local_pair(r: u8, c: u8) -> bool {
    let region_coord = local_at(r % 9);
    let local_coord = local_at(c % 9);
    let global_coord = Global::new(region_coord, local_coord);
    region_coord == global_coord.get_region() && local_coord == global_coord.get_local()
}

#[test]
fn quickcheck_reassemble_local_coord() {
    quickcheck::quickcheck(reassemble_local_coord as fn(u8) -> bool);
}

#[test]
fn quickcheck_reassemble_global_coord() {
    quickcheck::quickcheck(reassemble_global_coord as fn(u8, u8) -> bool);
}

#[test]
fn quickcheck_disassemble_local_pair() {
    quickcheck::quickcheck(disassemble_local_pair as fn(u8, u8) -> bool);
}

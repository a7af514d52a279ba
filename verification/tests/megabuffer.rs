use dunward_renderer::align::{align_up, check_power_of_two};
use dunward_renderer::megabuffer::{
    coalesce_regions, BufferCopy, FreeMegabufferRegion, Megabuffer, MegabufferError, MegabufferIds,
};

fn free(offset: u64, size: u64) -> FreeMegabufferRegion {
    FreeMegabufferRegion { offset, size }
}

fn sorted_and_apart(regions: &[FreeMegabufferRegion], capacity: u64) -> bool {
    for region in regions {
        if region.offset + region.size > capacity {
            return false;
        }
    }
    for pair in regions.windows(2) {
        if pair[0].offset + pair[0].size >= pair[1].offset {
            return false;
        }
    }
    true
}

#[test]
fn a_new_megabuffer_is_one_free_region() {
    let mut ids = MegabufferIds::new();
    let mb = Megabuffer::new(4096, 256, &mut ids);
    assert_eq!(mb.free_regions(), vec![free(0, 4096)]);
    assert_eq!(mb.alignment(), 256);
    assert_eq!(mb.capacity(), 4096);
    assert_eq!(mb.id(), 0);
}

#[test]
fn megabuffers_of_one_source_are_numbered_in_turn() {
    let mut ids = MegabufferIds::new();
    assert_eq!(ids.next(), 0);
    let first = Megabuffer::new(16, 1, &mut ids);
    let second = Megabuffer::new(16, 1, &mut ids);
    assert_eq!(ids.take(), 2);
    let fourth = Megabuffer::new(16, 1, &mut ids);
    assert_eq!((first.id(), second.id(), fourth.id()), (0, 1, 3));
    assert_eq!(ids.next(), 4);
}

#[test]
fn power_of_two_is_recognised() {
    assert!(check_power_of_two(1));
    assert!(check_power_of_two(2));
    assert!(check_power_of_two(256));
    assert!(check_power_of_two(1 << 63));
    assert!(!check_power_of_two(0));
    assert!(!check_power_of_two(3));
    assert!(!check_power_of_two(255));
    assert!(!check_power_of_two(u64::MAX));
}

#[test]
fn sizes_round_up_to_the_alignment() {
    assert_eq!(align_up(0, 256), Some(0));
    assert_eq!(align_up(1, 256), Some(256));
    assert_eq!(align_up(256, 256), Some(256));
    assert_eq!(align_up(257, 256), Some(512));
    assert_eq!(align_up(100, 1), Some(100));
    assert_eq!(align_up(1000, 64), Some(1024));
    assert_eq!(align_up(u64::MAX, 1), Some(u64::MAX));
    assert_eq!(align_up(u64::MAX, 2), None);
    assert_eq!(align_up(u64::MAX - 255, 256), Some(u64::MAX - 255));
    assert_eq!(align_up(u64::MAX - 254, 256), None);
}

#[test]
fn aligned_size_of_a_megabuffer() {
    let mut ids = MegabufferIds::new();
    let mb = Megabuffer::new(4096, 64, &mut ids);
    assert_eq!(mb.aligned_size(1), Ok(64));
    assert_eq!(mb.aligned_size(65), Ok(128));
    assert_eq!(mb.aligned_size(u64::MAX), Err(MegabufferError::SizeOverflow));
}

#[test]
fn an_allocation_has_the_rounded_size() {
    let mut ids = MegabufferIds::new();
    let mut mb = Megabuffer::new(4096, 256, &mut ids);
    let a = mb.allocate_region(100).unwrap();
    assert_eq!(a.offset(), 0);
    assert_eq!(a.size(), ((100 + 256 - 1) / 256) * 256);
    let b = mb.allocate_region(300).unwrap();
    assert_eq!(b.offset(), 256);
    assert_eq!(b.size(), 512);
    assert_eq!(mb.free_regions(), vec![free(768, 3328)]);
}

#[test]
fn an_exact_fit_takes_the_whole_region() {
    let mut ids = MegabufferIds::new();
    let mut mb = Megabuffer::new(512, 256, &mut ids);
    let a = mb.allocate_region(512).unwrap();
    assert_eq!((a.offset(), a.size()), (0, 512));
    assert_eq!(mb.free_regions(), vec![]);
}

#[test]
fn the_first_region_that_fits_is_taken() {
    let mut ids = MegabufferIds::new();
    let mut mb = Megabuffer::new(1000, 1, &mut ids);
    let mut a = mb.allocate_region(100).unwrap();
    let _b = mb.allocate_region(100).unwrap();
    let mut c = mb.allocate_region(300).unwrap();
    let _d = mb.allocate_region(100).unwrap();
    mb.deallocate_region(&mut a).unwrap();
    mb.deallocate_region(&mut c).unwrap();
    assert_eq!(mb.free_regions(), vec![free(0, 100), free(200, 300), free(600, 400)]);
    let e = mb.allocate_region(200).unwrap();
    assert_eq!((e.offset(), e.size()), (200, 200));
    assert_eq!(mb.free_regions(), vec![free(0, 100), free(400, 100), free(600, 400)]);
}

#[test]
fn out_of_space_leaves_the_free_list_unchanged() {
    let mut ids = MegabufferIds::new();
    let mut mb = Megabuffer::new(1024, 256, &mut ids);
    let _a = mb.allocate_region(512).unwrap();
    let before = mb.free_regions();
    match mb.allocate_region(513) {
        Err(e) => assert_eq!(e, MegabufferError::OutOfSpace),
        Ok(_) => panic!("an allocation that cannot fit succeeded"),
    }
    assert_eq!(mb.free_regions(), before);
    let _b = mb.allocate_region(512).unwrap();
    assert_eq!(mb.free_regions(), vec![]);
    match mb.allocate_region(1) {
        Err(e) => assert_eq!(e, MegabufferError::OutOfSpace),
        Ok(_) => panic!("an allocation from a full megabuffer succeeded"),
    }
    assert_eq!(mb.free_regions(), vec![]);
}

#[test]
fn a_size_that_cannot_be_rounded_is_out_of_space() {
    let mut ids = MegabufferIds::new();
    let mut mb = Megabuffer::new(1024, 256, &mut ids);
    match mb.allocate_region(u64::MAX) {
        Err(e) => assert_eq!(e, MegabufferError::OutOfSpace),
        Ok(_) => panic!("an allocation of the whole address range succeeded"),
    }
    assert_eq!(mb.free_regions(), vec![free(0, 1024)]);
}

#[test]
fn an_allocation_of_nothing_is_an_empty_region() {
    let mut ids = MegabufferIds::new();
    let mut mb = Megabuffer::new(1024, 256, &mut ids);
    let mut a = mb.allocate_region(0).unwrap();
    assert_eq!((a.offset(), a.size()), (0, 0));
    assert_eq!(mb.free_regions(), vec![free(0, 1024)]);
    assert_eq!(mb.deallocate_region(&mut a), Err(MegabufferError::DoubleFree));
}

#[test]
fn deallocating_between_two_free_regions_merges_all_three() {
    let mut ids = MegabufferIds::new();
    let mut mb = Megabuffer::new(350, 1, &mut ids);
    let mut a = mb.allocate_region(100).unwrap();
    let mut b = mb.allocate_region(200).unwrap();
    assert_eq!((b.offset(), b.size()), (100, 200));
    mb.deallocate_region(&mut a).unwrap();
    assert_eq!(mb.free_regions(), vec![free(0, 100), free(300, 50)]);
    mb.deallocate_region(&mut b).unwrap();
    assert_eq!(mb.free_regions(), vec![free(0, 350)]);
}

#[test]
fn deallocating_next_to_a_lower_free_region_extends_it() {
    let mut ids = MegabufferIds::new();
    let mut mb = Megabuffer::new(400, 1, &mut ids);
    let mut a = mb.allocate_region(100).unwrap();
    let mut b = mb.allocate_region(100).unwrap();
    let _c = mb.allocate_region(200).unwrap();
    mb.deallocate_region(&mut a).unwrap();
    assert_eq!(mb.free_regions(), vec![free(0, 100)]);
    mb.deallocate_region(&mut b).unwrap();
    assert_eq!(mb.free_regions(), vec![free(0, 200)]);
}

#[test]
fn deallocating_next_to_a_higher_free_region_extends_it_downwards() {
    let mut ids = MegabufferIds::new();
    let mut mb = Megabuffer::new(400, 1, &mut ids);
    let _a = mb.allocate_region(100).unwrap();
    let mut b = mb.allocate_region(100).unwrap();
    assert_eq!(mb.free_regions(), vec![free(200, 200)]);
    mb.deallocate_region(&mut b).unwrap();
    assert_eq!(mb.free_regions(), vec![free(100, 300)]);
}

#[test]
fn deallocating_apart_from_every_free_region_keeps_the_list_sorted() {
    let mut ids = MegabufferIds::new();
    let mut mb = Megabuffer::new(500, 1, &mut ids);
    let mut a = mb.allocate_region(100).unwrap();
    let _b = mb.allocate_region(100).unwrap();
    let mut c = mb.allocate_region(100).unwrap();
    let _d = mb.allocate_region(100).unwrap();
    mb.deallocate_region(&mut c).unwrap();
    assert_eq!(mb.free_regions(), vec![free(200, 100), free(400, 100)]);
    mb.deallocate_region(&mut a).unwrap();
    assert_eq!(mb.free_regions(), vec![free(0, 100), free(200, 100), free(400, 100)]);
}

#[test]
fn a_second_deallocation_is_a_double_free() {
    let mut ids = MegabufferIds::new();
    let mut mb = Megabuffer::new(1024, 256, &mut ids);
    let mut a = mb.allocate_region(256).unwrap();
    assert_eq!(mb.deallocate_region(&mut a), Ok(()));
    assert_eq!(a.size(), 0);
    let before = mb.free_regions();
    assert_eq!(mb.deallocate_region(&mut a), Err(MegabufferError::DoubleFree));
    assert_eq!(mb.free_regions(), before);
    assert_eq!(mb.deallocate_region(&mut a), Err(MegabufferError::DoubleFree));
}

#[test]
fn allocating_and_deallocating_restores_the_free_list() {
    let mut ids = MegabufferIds::new();
    let mut mb = Megabuffer::new(4096, 256, &mut ids);
    let _keep = mb.allocate_region(256).unwrap();
    let before = mb.free_regions();
    let mut a = mb.allocate_region(1000).unwrap();
    mb.deallocate_region(&mut a).unwrap();
    assert_eq!(mb.free_regions(), before);
}

#[test]
fn the_free_list_stays_sorted_and_apart() {
    let mut ids = MegabufferIds::new();
    let mut mb = Megabuffer::new(1 << 16, 64, &mut ids);
    let mut held = Vec::new();
    let sizes = [100u64, 64, 1, 4000, 700, 63, 65, 128, 5000, 9];
    for round in 0..6usize {
        for (k, size) in sizes.iter().enumerate() {
            if let Ok(region) = mb.allocate_region(*size + (round as u64) * 17) {
                held.push(region);
            }
            assert!(sorted_and_apart(&mb.free_regions(), 1 << 16));
            if (k + round) % 3 == 0 && !held.is_empty() {
                let at = (k * 7 + round * 3) % held.len();
                let mut region = held.swap_remove(at);
                mb.deallocate_region(&mut region).unwrap();
                assert!(sorted_and_apart(&mb.free_regions(), 1 << 16));
            }
        }
    }
    while let Some(mut region) = held.pop() {
        mb.deallocate_region(&mut region).unwrap();
        assert!(sorted_and_apart(&mb.free_regions(), 1 << 16));
    }
    assert_eq!(mb.free_regions(), vec![free(0, 1 << 16)]);
}

#[test]
fn defragment_finds_nothing_to_join() {
    let mut ids = MegabufferIds::new();
    let mut mb = Megabuffer::new(500, 1, &mut ids);
    let mut a = mb.allocate_region(100).unwrap();
    let _b = mb.allocate_region(100).unwrap();
    mb.deallocate_region(&mut a).unwrap();
    let before = mb.free_regions();
    mb.defragment();
    assert_eq!(mb.free_regions(), before);
}

#[test]
fn coalescing_joins_runs_of_touching_regions() {
    let joined = coalesce_regions(&vec![free(0, 10), free(10, 5), free(15, 5), free(30, 5), free(35, 1)]);
    assert_eq!(joined, vec![free(0, 20), free(30, 6)]);
    assert_eq!(coalesce_regions(&vec![]), vec![]);
    assert_eq!(coalesce_regions(&vec![free(4, 4)]), vec![free(4, 4)]);
    assert_eq!(coalesce_regions(&vec![free(0, 1), free(2, 1)]), vec![free(0, 1), free(2, 1)]);
}

#[test]
fn a_subregion_is_carved_from_the_high_end() {
    let mut ids = MegabufferIds::new();
    let mut mb = Megabuffer::new(4096, 256, &mut ids);
    let mut a = mb.allocate_region(1024).unwrap();
    let part = a.suballocate_region(200).unwrap();
    assert_eq!((part.offset(), part.size()), (768, 256));
    assert_eq!((a.offset(), a.size()), (0, 768));
    assert!(part.belongs_to_same_megabuffer(&a));
    assert!(part.belongs_to_megabuffer(&mb));
    assert!(part.is_adjacent_to(&a));
    assert!(a.is_adjacent_to(&part));
}

#[test]
fn a_subregion_must_be_a_proper_part() {
    let mut ids = MegabufferIds::new();
    let mut mb = Megabuffer::new(4096, 256, &mut ids);
    let mut a = mb.allocate_region(512).unwrap();
    match a.suballocate_region(513) {
        Err(e) => assert_eq!(e, MegabufferError::SubregionTooLarge),
        Ok(_) => panic!("a part larger than the region was carved"),
    }
    match a.suballocate_region(u64::MAX) {
        Err(e) => assert_eq!(e, MegabufferError::SubregionTooLarge),
        Ok(_) => panic!("a part larger than the region was carved"),
    }
    match a.suballocate_region(0) {
        Err(e) => assert_eq!(e, MegabufferError::SubregionEmpty),
        Ok(_) => panic!("an empty part was carved"),
    }
    match a.suballocate_region(512) {
        Err(e) => assert_eq!(e, MegabufferError::SubregionIsParent),
        Ok(_) => panic!("the whole region was carved"),
    }
    match a.suballocate_region(300) {
        Err(e) => assert_eq!(e, MegabufferError::SubregionIsParent),
        Ok(_) => panic!("the whole region was carved"),
    }
    assert_eq!((a.offset(), a.size()), (0, 512));
}

#[test]
fn adjacent_regions_of_one_megabuffer_merge() {
    let mut ids = MegabufferIds::new();
    let mut mb = Megabuffer::new(4096, 256, &mut ids);
    let mut a = mb.allocate_region(256).unwrap();
    let b = mb.allocate_region(512).unwrap();
    assert_eq!(a.merge_adjacent_region(b), Ok(()));
    assert_eq!((a.offset(), a.size()), (0, 768));

    let c = mb.allocate_region(256).unwrap();
    let mut d = mb.allocate_region(256).unwrap();
    assert_eq!(d.merge_adjacent_region(c), Ok(()));
    assert_eq!((d.offset(), d.size()), (768, 512));
}

#[test]
fn regions_that_do_not_touch_do_not_merge() {
    let mut ids = MegabufferIds::new();
    let mut mb = Megabuffer::new(4096, 256, &mut ids);
    let mut a = mb.allocate_region(256).unwrap();
    let _b = mb.allocate_region(256).unwrap();
    let c = mb.allocate_region(256).unwrap();
    assert!(!a.is_adjacent_to(&c));
    assert_eq!(a.merge_adjacent_region(c), Err(MegabufferError::NotAdjacent));
    assert_eq!((a.offset(), a.size()), (0, 256));
}

#[test]
fn regions_of_different_megabuffers_do_not_merge() {
    let mut ids = MegabufferIds::new();
    let mut first = Megabuffer::new(4096, 256, &mut ids);
    let mut second = Megabuffer::new(4096, 256, &mut ids);
    let mut a = first.allocate_region(256).unwrap();
    let b = second.allocate_region(256).unwrap();
    let _c = second.allocate_region(256).unwrap();
    let d = second.allocate_region(256).unwrap();
    assert!(!a.belongs_to_same_megabuffer(&b));
    assert!(!a.belongs_to_megabuffer(&second));
    assert!(!a.is_adjacent_to(&d));
    assert_eq!(a.merge_adjacent_region(d), Err(MegabufferError::DifferentMegabuffer));
    let mut f = first.allocate_region(256).unwrap();
    assert_eq!(f.offset(), 256);
    assert_eq!(f.merge_adjacent_region(b), Err(MegabufferError::DifferentMegabuffer));
    assert_eq!((f.offset(), f.size()), (256, 256));
}

#[test]
fn a_write_goes_to_the_offset_of_the_region() {
    let mut ids = MegabufferIds::new();
    let mut mb = Megabuffer::new(4096, 256, &mut ids);
    let _a = mb.allocate_region(256).unwrap();
    let b = mb.allocate_region(256).unwrap();
    assert_eq!(b.write(256), Ok(256));
    assert_eq!(b.write(0), Ok(256));
    assert_eq!(b.write(257), Err(MegabufferError::DataTooLarge));
    assert_eq!(mb.write(257, &b), Err(MegabufferError::DataTooLarge));
    assert_eq!(mb.write(100, &b), Ok(256));
}

#[test]
fn an_upload_copies_what_was_written_since_the_last_one() {
    let mut ids = MegabufferIds::new();
    let mut mb = Megabuffer::new(4096, 256, &mut ids);
    let a = mb.allocate_region(256).unwrap();
    let b = mb.allocate_region(512).unwrap();
    assert_eq!(mb.upload(), vec![]);
    mb.write(300, &b).unwrap();
    mb.write(16, &a).unwrap();
    mb.write(0, &a).unwrap();
    assert_eq!(mb.write(513, &b), Err(MegabufferError::DataTooLarge));
    assert_eq!(
        mb.upload(),
        vec![
            BufferCopy { src_offset: 256, dst_offset: 256, size: 300 },
            BufferCopy { src_offset: 0, dst_offset: 0, size: 16 },
        ]
    );
    assert_eq!(mb.upload(), vec![]);
    assert_eq!(mb.free_regions(), vec![free(768, 3328)]);
}

#[test]
fn a_megabuffer_knows_the_regions_it_holds() {
    let mut ids = MegabufferIds::new();
    let mut first = Megabuffer::new(1024, 256, &mut ids);
    let mut second = Megabuffer::new(1024, 256, &mut ids);
    let mut a = first.allocate_region(256).unwrap();
    let b = first.allocate_region(256).unwrap();
    let c = second.allocate_region(256).unwrap();
    assert!(first.holds_region(&a));
    assert!(first.holds_region(&b));
    assert!(!first.holds_region(&c));
    assert!(second.holds_region(&c));
    assert!(!second.holds_region(&a));
    first.deallocate_region(&mut a).unwrap();
    assert!(first.holds_region(&b));
    let again = first.allocate_region(100).unwrap();
    assert_eq!(again.offset(), 0);
    assert!(first.holds_region(&again));
    assert!(first.holds_region(&b));
}

use ultimate_tex::mipmaps::{corrected_mipmap_count, ilog2};

#[test]
fn whole_logarithm_of_powers_of_two() {
    assert_eq!(ilog2(0), 0);
    assert_eq!(ilog2(1), 0);
    assert_eq!(ilog2(2), 1);
    assert_eq!(ilog2(4), 2);
    assert_eq!(ilog2(1024), 10);
    assert_eq!(ilog2(0x8000_0000), 31);
}

#[test]
fn whole_logarithm_rounds_down() {
    assert_eq!(ilog2(3), 1);
    assert_eq!(ilog2(5), 2);
    assert_eq!(ilog2(1023), 9);
    assert_eq!(ilog2(1025), 10);
    assert_eq!(ilog2(u32::MAX), 31);
}

#[test]
fn whole_logarithm_agrees_with_the_language() {
    for n in 1..5000u32 {
        assert_eq!(ilog2(n), n.ilog2());
    }
}

#[test]
fn mip_count_that_fits_is_kept() {
    assert_eq!(corrected_mipmap_count(64, 64, 1, 1), 1);
    assert_eq!(corrected_mipmap_count(64, 64, 1, 6), 6);
    assert_eq!(corrected_mipmap_count(64, 64, 1, 0), 0);
}

#[test]
fn mip_count_that_is_too_large_is_clamped() {
    assert_eq!(corrected_mipmap_count(64, 64, 1, 7), 6);
    assert_eq!(corrected_mipmap_count(64, 64, 1, 10), 6);
    assert_eq!(corrected_mipmap_count(4096, 2048, 1, 13), 12);
    assert_eq!(corrected_mipmap_count(1, 1, 1, 5), 0);
    assert_eq!(corrected_mipmap_count(0, 0, 0, 5), 0);
    assert_eq!(corrected_mipmap_count(16, 16, 16, u32::MAX), 4);
}

#[test]
fn mip_count_goes_by_the_largest_dimension() {
    assert_eq!(corrected_mipmap_count(1, 256, 1, 20), 8);
    assert_eq!(corrected_mipmap_count(256, 1, 1, 20), 8);
    assert_eq!(corrected_mipmap_count(1, 1, 256, 20), 8);
    assert_eq!(corrected_mipmap_count(100, 300, 200, 20), 8);
}

#[test]
fn mip_count_correction_is_idempotent() {
    for (w, h, d, m) in [(64, 64, 1, 10), (1, 1, 1, 3), (4096, 4096, 1, 5), (17, 300, 2, 9)] {
        let once = corrected_mipmap_count(w, h, d, m);
        assert_eq!(corrected_mipmap_count(w, h, d, once), once);
    }
}

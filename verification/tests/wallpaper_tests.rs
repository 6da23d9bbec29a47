use kid_internet_lock::wallpaper::allowed_ranges_for_day;

#[test]
fn test_single_slot_ranges() {
    // Block 00:00-07:00 -> available 07:00-24:00.
    let ranges = allowed_ranges_for_day(&[(0, 420)], &[]);
    assert_eq!(ranges, vec![(420, 1440)]);
}

#[test]
fn test_two_slots_and_empty() {
    // Unused slot (start == end) is ignored.
    let ranges = allowed_ranges_for_day(&[(0, 420), (1320, 1380)], &[(0, 0)]);
    assert_eq!(ranges, vec![(420, 1320), (1380, 1440)]);
    // Fully open day (including an unused 00:00-00:00 slot).
    assert_eq!(allowed_ranges_for_day(&[], &[]), vec![(0, 1440)]);
    assert_eq!(allowed_ranges_for_day(&[(0, 0)], &[]), vec![(0, 1440)]);
    // Fully blocked day.
    assert!(allowed_ranges_for_day(&[(0, 1440)], &[]).is_empty());
}

#[test]
fn test_crossing_spillover() {
    // Monday night 23:00-07:00 spills into Tuesday 00:00-07:00.
    let monday = vec![(1380, 420)];
    let tuesday_own: Vec<(u32, u32)> = vec![];
    let tue = allowed_ranges_for_day(&tuesday_own, &monday);
    assert_eq!(tue, vec![(420, 1440)]);
    // Monday itself keeps its whole morning open (belongs to Sunday).
    let sun: Vec<(u32, u32)> = vec![];
    let mon = allowed_ranges_for_day(&monday, &sun);
    assert_eq!(mon, vec![(0, 1380)]);
}

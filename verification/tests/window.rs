use control_sim::window::SampleWindow;

#[test]
fn new_window_is_empty() {
    let window: SampleWindow<u32> = SampleWindow::new(3);
    assert_eq!(window.len(), 0);
    assert_eq!(window.capacity(), 3);
    assert!(!window.is_full());
    assert_eq!(window.last(), None);
    assert!(window.as_slice().is_empty());
}

#[test]
fn window_fills_up_in_order() {
    let mut window = SampleWindow::new(3);
    window.push(10);
    window.push(20);
    assert_eq!(window.as_slice(), &[10, 20]);
    assert_eq!(window.last(), Some(&20));
    assert!(!window.is_full());
    window.push(30);
    assert_eq!(window.as_slice(), &[10, 20, 30]);
    assert!(window.is_full());
}

#[test]
fn full_window_drops_the_oldest_sample() {
    let mut window = SampleWindow::new(3);
    for sample in 1..=5 {
        window.push(sample);
    }
    assert_eq!(window.as_slice(), &[3, 4, 5]);
    assert_eq!(window.len(), 3);
}

#[test]
fn window_holds_the_latest_samples_after_any_number_of_pushes() {
    for capacity in 1usize..=4 {
        let mut window = SampleWindow::new(capacity);
        for count in 1usize..=10 {
            window.push(count);
            let held = capacity.min(count);
            let expected: Vec<usize> = (count - held + 1..=count).collect();
            assert_eq!(window.as_slice(), expected.as_slice());
        }
    }
}

#[test]
fn window_of_one_sample_holds_the_newest() {
    let mut window = SampleWindow::new(1);
    window.push('a');
    window.push('b');
    assert_eq!(window.as_slice(), &['b']);
}

#[test]
fn cleared_window_starts_over() {
    let mut window = SampleWindow::new(2);
    window.push(1);
    window.push(2);
    window.push(3);
    window.clear();
    assert_eq!(window.len(), 0);
    assert_eq!(window.capacity(), 2);
    window.push(4);
    assert_eq!(window.as_slice(), &[4]);
}

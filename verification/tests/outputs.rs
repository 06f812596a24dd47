use kiwi::outputs::OutputSet;

#[test]
fn outputs_track_surfaces() {
    let mut o: OutputSet<u64> = OutputSet::new();
    o.add(5, 100, Some("DP-1".to_string()));
    o.add(6, 101, None);
    assert_eq!(o.find(6), 1);
    assert_eq!(o.find(7), 2);
    o.rename(6, Some("HDMI-1".to_string()));
    assert_eq!(o.outputs[1].name.as_deref(), Some("HDMI-1"));
    assert_eq!(o.surfaces(), vec![100, 101]);
    assert_eq!(o.replace_surface(0, 200), Some(100));
    assert_eq!(o.replace_surface(2, 300), None);
    assert_eq!(o.remove(5), Some(200));
    assert_eq!(o.remove(5), None);
    assert_eq!(o.surfaces(), vec![101]);
}

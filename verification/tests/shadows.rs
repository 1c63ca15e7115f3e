use equilibrium::shadows::{create_shadows, remove_shadows, ShowShadows};

#[test]
fn shadows_follow_the_turning_gestures() {
    let mut show = ShowShadows(false);
    create_shadows(false, &mut show);
    assert_eq!(show, ShowShadows(false));
    create_shadows(true, &mut show);
    assert_eq!(show, ShowShadows(true));
    create_shadows(false, &mut show);
    assert_eq!(show, ShowShadows(true));
    remove_shadows(true, 1, &mut show);
    assert_eq!(show, ShowShadows(true));
    remove_shadows(false, 0, &mut show);
    assert_eq!(show, ShowShadows(true));
    remove_shadows(true, 0, &mut show);
    assert_eq!(show, ShowShadows(false));
}

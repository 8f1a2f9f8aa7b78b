use pathtracer::path::classify_material;
use pathtracer::path::first_event;
use pathtracer::path::path_step;
use pathtracer::path::phase_is_isotropic;
use pathtracer::path::FirstEvent;
use pathtracer::path::MaterialClass;
use pathtracer::path::PathAction;
use pathtracer::path::PathEvent;
use pathtracer::path::PathState;
use pathtracer::path::MAX_DEPTH;
use pathtracer::path::MAX_GLASS_BOUNCES;
use pathtracer::path::RUSSIAN_ROULETTE_DEPTH;

const OPAQUE: MaterialClass = MaterialClass { dielectric: false, volumetric: false };
const GLASS: MaterialClass = MaterialClass { dielectric: true, volumetric: false };
const FOG: MaterialClass = MaterialClass { dielectric: false, volumetric: true };

fn surface(class: MaterialClass) -> PathEvent {
    PathEvent::Surface {
        class,
        material: 7,
        entering: true,
        reflect_sample: false,
        total_internal_reflection: false,
        roulette_sample: true,
        diffuse_sample: true,
    }
}

#[test]
fn material_classification_follows_the_float_rules() {
    let c = |ior: f32, m: f32, d: f32| classify_material(ior.to_bits(), m.to_bits(), d.to_bits());
    assert!(c(1.5, 0.0, 0.0).dielectric);
    // An index of refraction of exactly one means no refraction: the
    // surface is not dielectric and takes the opaque path, so no ray is
    // ever bent by it.
    assert!(!c(1.0, 0.0, 0.0).dielectric);
    assert!(!c(0.9, 0.0, 0.0).dielectric);
    // The metalness threshold is strict.
    assert!(!c(1.5, 0.1, 0.0).dielectric);
    assert!(c(1.5, 0.099, 0.0).dielectric);
    assert!(!c(1.5, f32::NAN, 0.0).dielectric);
    assert!(c(1.0, 1.0, 0.5).volumetric);
    assert!(!c(1.0, 1.0, 0.0).volumetric);
    assert!(!c(1.0, 1.0, -1.0).volumetric);
}

#[test]
fn phase_isotropy_threshold_is_strict() {
    assert!(phase_is_isotropic(0.0f32.to_bits()));
    assert!(phase_is_isotropic(0.5e-3f32.to_bits()));
    assert!(phase_is_isotropic((-0.5e-3f32).to_bits()));
    assert!(!phase_is_isotropic(1e-3f32.to_bits()));
    assert!(!phase_is_isotropic(0.7f32.to_bits()));
    assert!(!phase_is_isotropic(f32::NAN.to_bits()));
}

#[test]
fn event_priority_follows_distances() {
    let near = Some(1.0f32.to_bits());
    let far = Some(2.0f32.to_bits());
    assert_eq!(first_event(&near, &far), FirstEvent::Medium);
    assert_eq!(first_event(&far, &near), FirstEvent::Surface);
    assert_eq!(first_event(&None, &far), FirstEvent::Surface);
    assert_eq!(first_event(&near, &None), FirstEvent::Medium);
    assert_eq!(first_event(&None, &None), FirstEvent::Miss);
    // Equal distances: only a strictly shorter free flight preempts.
    assert_eq!(first_event(&near, &near), FirstEvent::Surface);
    // An infinite free flight never preempts a miss.
    assert_eq!(first_event(&Some(f32::INFINITY.to_bits()), &None), FirstEvent::Miss);
}

#[test]
fn depth_budget_terminates() {
    let s = PathState { depth: MAX_DEPTH, glass_bounces: 0, medium: None };
    assert!(matches!(path_step(&s, &PathEvent::Miss), PathAction::Terminate));
    assert!(matches!(path_step(&s, &surface(OPAQUE)), PathAction::Terminate));
}

#[test]
fn glass_budget_terminates() {
    let s = PathState { depth: 1, glass_bounces: MAX_GLASS_BOUNCES, medium: None };
    assert!(matches!(path_step(&s, &surface(GLASS)), PathAction::Terminate));
}

#[test]
fn miss_yields_sky() {
    let s = PathState::initial();
    assert!(matches!(path_step(&s, &PathEvent::Miss), PathAction::Sky));
}

#[test]
fn medium_scatter_deepens_and_keeps_medium() {
    let s = PathState { depth: 1, glass_bounces: 0, medium: Some(3) };
    match path_step(&s, &PathEvent::MediumScatter) {
        PathAction::Scatter { next } => {
            assert_eq!(next.depth, 2);
            assert_eq!(next.glass_bounces, 0);
            assert_eq!(next.medium, Some(3));
        },
        other => panic!("expected a scatter, got {:?}", other),
    }
}

#[test]
fn dielectric_spends_glass_budget_and_follows_coin() {
    let s = PathState::initial();
    let mut e = surface(GLASS);
    if let PathEvent::Surface { ref mut reflect_sample, .. } = e {
        *reflect_sample = true;
    }
    match path_step(&s, &e) {
        PathAction::Glass { reflect, next } => {
            assert!(reflect);
            assert_eq!(next.depth, 1);
            assert_eq!(next.glass_bounces, 1);
        },
        other => panic!("expected a glass branch, got {:?}", other),
    }
    // Coin says refract and refraction is possible: the one branch taken is
    // refraction.
    match path_step(&s, &surface(GLASS)) {
        PathAction::Glass { reflect, .. } => assert!(!reflect),
        other => panic!("expected a glass branch, got {:?}", other),
    }
}

#[test]
fn total_internal_reflection_forces_reflection() {
    let s = PathState::initial();
    let mut e = surface(GLASS);
    if let PathEvent::Surface { ref mut total_internal_reflection, .. } = e {
        *total_internal_reflection = true;
    }
    match path_step(&s, &e) {
        PathAction::Glass { reflect, .. } => assert!(reflect),
        other => panic!("expected a glass branch, got {:?}", other),
    }
}

#[test]
fn roulette_below_threshold_always_continues_unweighted() {
    let s = PathState { depth: RUSSIAN_ROULETTE_DEPTH - 1, glass_bounces: 0, medium: None };
    let mut e = surface(OPAQUE);
    if let PathEvent::Surface { ref mut roulette_sample, .. } = e {
        *roulette_sample = false;
    }
    match path_step(&s, &e) {
        PathAction::Bounce { weighted, diffuse, next } => {
            assert!(!weighted);
            assert!(diffuse);
            assert_eq!(next.depth, RUSSIAN_ROULETTE_DEPTH);
        },
        other => panic!("expected a bounce, got {:?}", other),
    }
}

#[test]
fn roulette_at_threshold_follows_survival_coin() {
    let s = PathState { depth: RUSSIAN_ROULETTE_DEPTH, glass_bounces: 0, medium: None };
    match path_step(&s, &surface(OPAQUE)) {
        PathAction::Bounce { weighted, .. } => assert!(weighted),
        other => panic!("expected a bounce, got {:?}", other),
    }
    let mut e = surface(OPAQUE);
    if let PathEvent::Surface { ref mut roulette_sample, .. } = e {
        *roulette_sample = false;
    }
    assert!(matches!(path_step(&s, &e), PathAction::DirectOnly));
}

#[test]
fn specular_lobe_choice_passes_through() {
    let s = PathState::initial();
    let mut e = surface(OPAQUE);
    if let PathEvent::Surface { ref mut diffuse_sample, .. } = e {
        *diffuse_sample = false;
    }
    match path_step(&s, &e) {
        PathAction::Bounce { diffuse, .. } => assert!(!diffuse),
        other => panic!("expected a bounce, got {:?}", other),
    }
}

#[test]
fn greedy_walks_terminate_within_the_depth_budget() {
    // Keep bouncing off opaque surfaces with a lucky roulette coin: the
    // machine still refuses to walk past the depth budget.
    let mut state = PathState::initial();
    let mut steps: u32 = 0;
    loop {
        match path_step(&state, &surface(OPAQUE)) {
            PathAction::Bounce { next, .. } => {
                state = next;
                steps += 1;
            },
            PathAction::Terminate => break,
            other => panic!("unexpected action {:?}", other),
        }
        assert!(steps <= MAX_DEPTH);
    }
    assert_eq!(steps, MAX_DEPTH);

    // The same through glass: each bounce spends depth and glass budget.
    let mut state = PathState::initial();
    let mut glass_steps: u32 = 0;
    loop {
        match path_step(&state, &surface(GLASS)) {
            PathAction::Glass { next, .. } => {
                state = next;
                glass_steps += 1;
            },
            PathAction::Terminate => break,
            other => panic!("unexpected action {:?}", other),
        }
        assert!(glass_steps <= MAX_GLASS_BOUNCES);
    }
    assert_eq!(state.glass_bounces, glass_steps);
}

#[test]
fn medium_transitions_follow_crossings() {
    let s = PathState { depth: 0, glass_bounces: 0, medium: Some(9) };
    // Entering a volumetric object switches to its medium.
    match path_step(&PathState::initial(), &surface(FOG)) {
        PathAction::Bounce { next, .. } => assert_eq!(next.medium, Some(7)),
        other => panic!("expected a bounce, got {:?}", other),
    }
    // Leaving a volumetric object drops the medium.
    let mut leaving = surface(FOG);
    if let PathEvent::Surface { ref mut entering, .. } = leaving {
        *entering = false;
    }
    match path_step(&s, &leaving) {
        PathAction::Bounce { next, .. } => assert_eq!(next.medium, None),
        other => panic!("expected a bounce, got {:?}", other),
    }
    // An ordinary surface keeps whatever is carried.
    match path_step(&s, &surface(OPAQUE)) {
        PathAction::Bounce { next, .. } => assert_eq!(next.medium, Some(9)),
        other => panic!("expected a bounce, got {:?}", other),
    }
}

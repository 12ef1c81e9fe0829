use simon::disk::traits::DiskHealth;
use simon::health::{
    build_checks, gpu_temperature_check, gpu_utilization_check, graded_check, has_critical_issues,
    health_score, quick_health_check, readings_fit, DiskReading, GpuReading, Grade, GradedReading,
    HealthCheck, HealthReadings, HealthStatus, MountReading, SystemHealth,
};
use simon::error::SimonError;
use std::time::SystemTime;

fn check(name: &str, category: &str, status: HealthStatus) -> HealthCheck {
    HealthCheck::new(name, category).with_status(status, "msg")
}

#[test]
fn check_scores_follow_status() {
    assert_eq!(check("a", "x", HealthStatus::Healthy).score, 100);
    assert_eq!(check("a", "x", HealthStatus::Good).score, 85);
    assert_eq!(check("a", "x", HealthStatus::Warning).score, 50);
    assert_eq!(check("a", "x", HealthStatus::Critical).score, 10);
    assert_eq!(check("a", "x", HealthStatus::Unknown).score, 0);
    let c = HealthCheck::new("CPU Usage", "CPU").with_value(42.5f64.to_bits(), None);
    assert_eq!(f64::from_bits(c.value.unwrap()), 42.5);
    assert_eq!(c.status, HealthStatus::Unknown);
}

#[test]
fn assessment_of_checks() {
    let checks = vec![
        check("a", "CPU", HealthStatus::Healthy),
        check("b", "Memory", HealthStatus::Warning),
        check("c", "CPU", HealthStatus::Good),
    ];
    let h = SystemHealth::from_checks(checks, SystemTime::UNIX_EPOCH);
    assert_eq!(h.status, HealthStatus::Warning);
    assert_eq!(h.score, (100 + 50 + 85) / 3);
    assert_eq!((h.healthy_count, h.warning_count, h.critical_count), (2, 1, 0));
    assert!(h.has_warnings());
    assert!(!h.has_critical());
    assert_eq!(h.issues().len(), 1);
    assert_eq!(h.by_category("CPU").len(), 2);
    assert_eq!(h.summary(), "\u{26A0} Warning - Score: 78/100 (2 healthy, 1 warning, 0 critical)");
    assert!(h.score <= 100);
}

#[test]
fn assessment_without_checks_is_unknown() {
    let h = SystemHealth::from_checks(vec![], SystemTime::UNIX_EPOCH);
    assert_eq!(h.status, HealthStatus::Unknown);
    assert_eq!(h.score, 0);
}

#[test]
fn good_outnumbering_healthy_is_good() {
    let h = SystemHealth::from_checks(
        vec![check("a", "x", HealthStatus::Good), check("b", "x", HealthStatus::Good), check("c", "x", HealthStatus::Healthy)],
        SystemTime::UNIX_EPOCH,
    );
    assert_eq!(h.status, HealthStatus::Good);
    let h = SystemHealth::from_checks(vec![check("a", "x", HealthStatus::Critical)], SystemTime::UNIX_EPOCH);
    assert_eq!(h.status, HealthStatus::Critical);
    assert!(has_critical_issues(Ok(h)));
}

#[test]
fn convenience_functions_on_errors() {
    let e = || Err(SimonError::Other("x".to_string()));
    assert_eq!(quick_health_check(e()), HealthStatus::Unknown);
    assert_eq!(health_score(e()), 0);
    assert!(!has_critical_issues(e()));
    let h = SystemHealth::from_checks(vec![check("a", "x", HealthStatus::Healthy)], SystemTime::UNIX_EPOCH);
    assert_eq!(quick_health_check(Ok(h.clone())), HealthStatus::Healthy);
    assert_eq!(health_score(Ok(h)), 100);
}

#[test]
fn gpu_checks() {
    let c = gpu_temperature_check(0, 96, 80, 95);
    assert_eq!(c.status, HealthStatus::Critical);
    assert_eq!(c.name, "GPU0 Temperature");
    assert_eq!(c.message, "GPU0 temperature critical: 96\u{B0}C");
    let c = gpu_temperature_check(1, 72, 80, 95);
    assert_eq!(c.status, HealthStatus::Good);
    assert_eq!(c.message, "GPU1 temperature warm: 72\u{B0}C");
    let c = gpu_temperature_check(1, -5, 80, 95);
    assert_eq!(c.message, "GPU1 temperature normal: -5\u{B0}C");
    let u = gpu_utilization_check(2, 97);
    assert_eq!(u.status, HealthStatus::Good);
    assert_eq!(u.message, "GPU2 fully utilized: 97%");
    let u = gpu_utilization_check(2, 60);
    assert_eq!(u.message, "GPU2 active: 60%");
    assert_eq!(HealthStatus::Critical.label(), "\u{2717} Critical");
}

#[test]
fn rated_assessments_score_between_10_and_100() {
    let all_critical = SystemHealth::from_checks(
        vec![check("a", "x", HealthStatus::Critical), check("b", "x", HealthStatus::Critical)],
        SystemTime::UNIX_EPOCH,
    );
    assert_eq!(all_critical.score, 10);
    assert_eq!(all_critical.healthy_count + all_critical.warning_count + all_critical.critical_count, 2);
    assert_eq!(health_score(Ok(all_critical.clone())), 10);
    assert!(has_critical_issues(Ok(all_critical.clone())));
    assert_eq!(quick_health_check(Ok(all_critical)), HealthStatus::Critical);
    let none = SystemHealth::from_checks(vec![], SystemTime::UNIX_EPOCH);
    assert_eq!(health_score(Ok(none.clone())), 0);
    assert_eq!(quick_health_check(Ok(none)), HealthStatus::Unknown);
}

fn graded(name: &str, category: &str, grade: Grade, value: f64) -> GradedReading {
    GradedReading {
        name: name.to_string(),
        category: category.to_string(),
        grade,
        message: format!("{} message", name),
        value: value.to_bits(),
        threshold: Some(80.0f64.to_bits()),
    }
}

fn sample_readings() -> HealthReadings {
    HealthReadings {
        cpu: Some(graded("CPU Usage", "CPU", Grade::Warning, 85.0)),
        memory: Some(graded("Memory Usage", "Memory", Grade::Healthy, 30.0)),
        swap: None,
        gpus: vec![
            None,
            Some(GpuReading {
                temperature: Some((96, 96.0f64.to_bits())),
                memory: None,
                utilization: 97,
                utilization_bits: 97.0f64.to_bits(),
            }),
        ],
        disks: vec![
            DiskReading {
                name: "sda".to_string(),
                health: Some(DiskHealth::Healthy),
                mounts: vec![
                    MountReading { total: 2_000_000_000, usage: graded("Mount /", "Storage", Grade::Good, 70.0) },
                    MountReading { total: 500_000_000, usage: graded("Mount /boot", "Storage", Grade::Critical, 99.0) },
                ],
            },
            DiskReading {
                name: "sdb".to_string(),
                health: Some(DiskHealth::Unknown),
                mounts: vec![MountReading {
                    total: 5_000_000_000,
                    usage: graded("Mount /data", "Storage", Grade::Critical, 99.0),
                }],
            },
            DiskReading {
                name: "sdc".to_string(),
                health: None,
                mounts: vec![MountReading {
                    total: 5_000_000_000,
                    usage: graded("Mount /srv", "Storage", Grade::Healthy, 10.0),
                }],
            },
        ],
        gpu_temp_warning: 80,
        gpu_temp_critical: 95,
        gpu_temp_warning_bits: 80.0f64.to_bits(),
    }
}

#[test]
fn graded_reading_becomes_rated_check() {
    let c = graded_check(&graded("Swap Usage", "Memory", Grade::Good, 20.0));
    assert_eq!(c.name, "Swap Usage");
    assert_eq!(c.category, "Memory");
    assert_eq!(c.status, HealthStatus::Good);
    assert_eq!(c.score, 85);
    assert_eq!(c.message, "Swap Usage message");
    assert_eq!(f64::from_bits(c.value.unwrap()), 20.0);
    assert_eq!(f64::from_bits(c.threshold.unwrap()), 80.0);
}

#[test]
fn checks_are_built_in_order() {
    let cs = build_checks(&sample_readings());
    let names: Vec<&str> = cs.iter().map(|c| c.name.as_str()).collect();
    assert_eq!(
        names,
        vec!["CPU Usage", "Memory Usage", "GPU1 Temperature", "GPU1 Utilization", "Disk sda Health", "Mount /", "Mount /srv"]
    );
    assert_eq!(cs[2].message, "GPU1 temperature critical: 96\u{B0}C");
    assert_eq!(f64::from_bits(cs[2].value.unwrap()), 96.0);
    assert_eq!(f64::from_bits(cs[2].threshold.unwrap()), 80.0);
    assert_eq!(cs[3].message, "GPU1 fully utilized: 97%");
    assert_eq!(cs[3].threshold, None);
    assert_eq!(cs[4].message, "Disk sda health: OK");
    assert_eq!(cs[4].category, "Storage");
    assert!(cs.iter().all(|c| c.status != HealthStatus::Unknown));
}

#[test]
fn assessment_of_readings() {
    let r = sample_readings();
    assert!(readings_fit(&r));
    let h = SystemHealth::assess(&r, SystemTime::UNIX_EPOCH);
    assert_eq!(h.checks.len(), 7);
    // 50 + 100 + 10 + 85 + 100 + 85 + 100 = 530, averaged over 7.
    assert_eq!(h.score, 75);
    assert_eq!(h.status, HealthStatus::Critical);
    assert_eq!(h.healthy_count, 5);
    assert_eq!(h.warning_count, 1);
    assert_eq!(h.critical_count, 1);
    assert_eq!(h.healthy_count + h.warning_count + h.critical_count, h.checks.len());
    assert_eq!(h.timestamp, SystemTime::UNIX_EPOCH);
    assert!(has_critical_issues(Ok(h.clone())));
    assert_eq!(quick_health_check(Ok(h.clone())), HealthStatus::Critical);
    assert_eq!(health_score(Ok(h)), 75);
}

#[test]
fn assessment_of_no_readings() {
    let r = HealthReadings {
        cpu: None,
        memory: None,
        swap: None,
        gpus: vec![None],
        disks: vec![],
        gpu_temp_warning: 80,
        gpu_temp_critical: 95,
        gpu_temp_warning_bits: 80.0f64.to_bits(),
    };
    assert!(readings_fit(&r));
    let h = SystemHealth::assess(&r, SystemTime::UNIX_EPOCH);
    assert!(h.checks.is_empty());
    assert_eq!(h.score, 0);
    assert_eq!(h.status, HealthStatus::Unknown);
    assert_eq!(quick_health_check(Ok(h)), HealthStatus::Unknown);
}

use workload_config::Workload;

const DEFAULT_CONFIG_STRING: &str = r#"
workload = "core"
recordcount = 1000000
operationcount = 3000000
threadcount = 500
insertcount = 0
insertstart = 0
fieldcount = 10
fieldlength = 100
readallfields = true
writeallfields = false
fieldlengthdistribution = "constant"
readproportion = 0.95
updateproportion = 0.05
insertproportion = 0.0
readmodifywriteproportion = 0.0
scanproportion = 0.0
maxscanlength = 1000
scanlengthdistribution = "uniform"
insertorder = "hashed"
requestdistribution = "zipfian"
readcount = 0.2
hotspotopnfraction = 0.8
maxexecutiontime = 0
table = "usertable"
columnfamily = ""
measurementtype = "histogram"

[histogram]
buckets = 1000

[timeseries]
granularity = 1000"#;

const WORKLOAD_A: &str = r#"
recordcount = 1000
operationcount = 1000
readallfields = true
readproportion = 0.5
updateproportion = 0.5
scanproportion = 0.0
insertproportion = 0.0
requestdistribution = "uniform"
"#;

const WORKLOAD_B: &str = r#"
recordcount = 1000
operationcount = 1000
readallfields = true
readproportion = 0.95
updateproportion = 0.05
scanproportion = 0.0
insertproportion = 0.0
requestdistribution = "uniform"
"#;

const WORKLOAD_C: &str = r#"
recordcount = 1000
operationcount = 1000
readallfields = true
readproportion = 1.0
updateproportion = 0.0
scanproportion = 0.0
insertproportion = 0.0
requestdistribution = "uniform"
"#;

const WORKLOAD_D: &str = r#"
recordcount = 1000
operationcount = 1000
readallfields = true
readproportion = 0.95
updateproportion = 0.0
scanproportion = 0.0
insertproportion = 0.05
requestdistribution = "latest"
"#;

const WORKLOAD_E: &str = r#"
recordcount = 1000
operationcount = 1000
readallfields = true
readproportion = 0.0
updateproportion = 0.0
scanproportion = 0.95
insertproportion = 0.05
requestdistribution = "uniform"
maxscanlength = 1
scanlengthdistribution = "uniform"
"#;

const WORKLOAD_F: &str = r#"
recordcount = 1000
operationcount = 1000
readallfields = true
readproportion = 0.5
updateproportion = 0.0
scanproportion = 0.0
insertproportion = 0.0
readmodifywriteproportion = 0.5
requestdistribution = "uniform"
"#;

#[test]
fn workload_serialization() {
    assert_eq!(
        DEFAULT_CONFIG_STRING.trim(),
        Workload::default().to_toml_string().trim()
    )
}

#[test]
fn workload_deserialization() {
    let config = Workload::from_toml_str(DEFAULT_CONFIG_STRING).unwrap();
    assert_eq!(
        DEFAULT_CONFIG_STRING.trim(),
        config.to_toml_string().trim()
    );
}

#[test]
fn workloada() {
    assert_eq!(
        Workload::a(1000, 1000).to_toml_string(),
        Workload::from_toml_str(WORKLOAD_A).unwrap().to_toml_string()
    )
}

#[test]
fn workloadb() {
    assert_eq!(
        Workload::b(1000, 1000).to_toml_string(),
        Workload::from_toml_str(WORKLOAD_B).unwrap().to_toml_string()
    )
}

#[test]
fn workloadc() {
    assert_eq!(
        Workload::c(1000, 1000).to_toml_string(),
        Workload::from_toml_str(WORKLOAD_C).unwrap().to_toml_string()
    )
}

#[test]
fn workloadd() {
    assert_eq!(
        Workload::d(1000, 1000).to_toml_string(),
        Workload::from_toml_str(WORKLOAD_D).unwrap().to_toml_string()
    )
}

#[test]
fn workloade() {
    assert_eq!(
        Workload::e(1000, 1000).to_toml_string(),
        Workload::from_toml_str(WORKLOAD_E).unwrap().to_toml_string()
    )
}

#[test]
fn workloadf() {
    assert_eq!(
        Workload::f(1000, 1000).to_toml_string(),
        Workload::from_toml_str(WORKLOAD_F).unwrap().to_toml_string()
    )
}

use tegne::shader::parse_shader_source;
use tegne::shader::CullMode;
use tegne::shader::DepthMode;
use tegne::shader::PolygonMode;
use tegne::shader::ReloadFilter;
use tegne::shader::ShaderError;
use tegne::shader::ShaderOptions;

fn container(vert: &[u8], frag: &[u8]) -> Vec<u8> {
    let mut bytes = vec![];
    bytes.extend_from_slice(&(vert.len() as u64).to_le_bytes());
    bytes.extend_from_slice(vert);
    bytes.extend_from_slice(&(frag.len() as u64).to_le_bytes());
    bytes.extend_from_slice(frag);
    bytes
}

#[test]
fn parses_both_stages() {
    let bytes = container(&[1, 2, 3], &[9, 8]);
    let code = parse_shader_source(&bytes).unwrap();
    assert_eq!(code.vert, vec![1, 2, 3]);
    assert_eq!(code.frag, vec![9, 8]);
}

#[test]
fn parses_what_bincode_writes() {
    let pair: (Vec<u8>, Vec<u8>) = (vec![0x03, 0x02, 0x23, 0x07], vec![0xff; 300]);
    let bytes = bincode::serialize(&pair).unwrap();
    assert_eq!(bytes.len(), 8 + 4 + 8 + 300);
    let code = parse_shader_source(&bytes).unwrap();
    assert_eq!(code.vert, pair.0);
    assert_eq!(code.frag, pair.1);
}

#[test]
fn trailing_bytes_are_ignored() {
    let mut bytes = container(&[5], &[]);
    bytes.extend_from_slice(&[1, 2, 3]);
    let code = parse_shader_source(&bytes).unwrap();
    assert_eq!(code.vert, vec![5]);
    assert!(code.frag.is_empty());
}

#[test]
fn malformed_containers_are_errors() {
    assert_eq!(parse_shader_source(&[]).err(), Some(ShaderError::Malformed));
    assert_eq!(parse_shader_source(&[1, 0, 0]).err(), Some(ShaderError::Malformed));
    let mut short = container(&[1, 2, 3], &[4, 5]);
    short.pop();
    assert_eq!(parse_shader_source(&short).err(), Some(ShaderError::Malformed));
    let huge = u64::MAX.to_le_bytes();
    assert_eq!(parse_shader_source(&huge).err(), Some(ShaderError::Malformed));
}

#[test]
fn default_shader_options() {
    let options = ShaderOptions::default();
    assert_eq!(options.depth_mode, DepthMode::TestAndWrite);
    assert_eq!(options.polygon_mode, PolygonMode::FilledTriangles);
    assert_eq!(options.cull_mode, CullMode::Back);
}

#[test]
fn depth_mode_flags() {
    assert!(DepthMode::TestAndWrite.test() && DepthMode::TestAndWrite.write());
    assert!(DepthMode::Test.test() && !DepthMode::Test.write());
    assert!(!DepthMode::Write.test() && DepthMode::Write.write());
    assert!(!DepthMode::Disabled.test() && !DepthMode::Disabled.write());
}

#[test]
fn reload_filter_lets_one_notice_per_second() {
    let mut filter = ReloadFilter::new();
    assert!(filter.should_reload(3));
    assert!(!filter.should_reload(3));
    assert!(filter.should_reload(4));
    assert!(!filter.should_reload(3));
}

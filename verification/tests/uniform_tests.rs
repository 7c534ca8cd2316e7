use audio_bridge::buffer::PollingBuffer;
use audio_bridge::uniform::{CustomMaterial, Lane, LANES};

const SILENT: Lane = Lane { x: 0, y: 0, z: 0, w: 0 };

#[test]
fn default_material_is_silent_with_four_lanes_valid() {
    let material = CustomMaterial::default();
    assert_eq!(LANES, 4096);
    assert_eq!(material.arr().len(), 4096);
    assert!(material.arr().iter().all(|lane| *lane == SILENT));
    assert_eq!(material.len(), 4);
}

#[test]
fn fill_packs_groups_of_four_and_drops_the_rest() {
    let mut material = CustomMaterial::default();
    material.fill(&[1, 2, 3, 4, 5, 6, 7, 8, 9, 10]);
    assert_eq!(material.len(), 2);
    assert_eq!(material.arr()[0], Lane { x: 1, y: 2, z: 3, w: 4 });
    assert_eq!(material.arr()[1], Lane { x: 5, y: 6, z: 7, w: 8 });
    assert_eq!(material.arr()[2], SILENT);
    assert_eq!(material.arr().len(), 4096);
}

#[test]
fn fill_keeps_the_lanes_behind_the_new_ones() {
    let mut material = CustomMaterial::default();
    material.fill(&[1, 2, 3, 4, 5, 6, 7, 8]);
    material.fill(&[9, 9, 9, 9]);
    assert_eq!(material.len(), 1);
    assert_eq!(material.arr()[0], Lane { x: 9, y: 9, z: 9, w: 9 });
    assert_eq!(material.arr()[1], Lane { x: 5, y: 6, z: 7, w: 8 });
}

#[test]
fn fill_with_less_than_one_group_sets_the_count_to_zero() {
    let mut material = CustomMaterial::default();
    material.fill(&[1, 2, 3]);
    assert_eq!(material.len(), 0);
    assert_eq!(material.arr()[0], SILENT);
}

#[test]
fn fill_takes_a_full_array() {
    let samples: Vec<u32> = (0..4 * 4096u32).collect();
    let mut material = CustomMaterial::default();
    material.fill(&samples);
    assert_eq!(material.len(), 4096);
    assert_eq!(material.arr()[4095], Lane { x: 16380, y: 16381, z: 16382, w: 16383 });
}

#[test]
fn polled_frame_of_4096_samples_fills_1024_lanes() {
    let mut buffer = PollingBuffer::new(4096);
    let samples: Vec<u32> = (0..5000u32).map(|i| (i as f32 / 5000.0).to_bits()).collect();
    buffer.write(&samples);
    let mut material = CustomMaterial::default();
    material.fill(&buffer.poll());
    assert_eq!(material.len(), 1024);
    assert_eq!(f32::from_bits(material.arr()[0].y), 1.0f32 / 5000.0);
    assert_eq!(material.arr()[1023].w, samples[4095]);
    assert_eq!(material.arr()[1024], SILENT);
}

#[test]
fn material_from_lanes_needs_the_exact_array_size() {
    let lane = Lane { x: 1, y: 2, z: 3, w: 4 };
    let material = CustomMaterial::from_lanes(vec![lane; 4096], 7).unwrap();
    assert_eq!(material.len(), 7);
    assert_eq!(material.arr()[4095], lane);
    assert!(CustomMaterial::from_lanes(vec![lane; 4095], 7).is_none());
    assert!(CustomMaterial::from_lanes(vec![lane; 4097], 7).is_none());
    assert!(CustomMaterial::from_lanes(vec![lane; 4096], 4097).is_none());
    assert!(CustomMaterial::from_lanes(vec![lane; 4096], 4096).is_some());
}

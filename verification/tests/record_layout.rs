use qualbin::layout::{quality_offset, transform_record};
use qualbin::tables::{bin, BinMode};

#[test]
fn offset_formula_grid() {
    for l in [1usize, 6, 20] {
        for c in [0usize, 1, 5] {
            for s in [0usize, 1, 2, 3, 100] {
                let off = quality_offset(l, c, s);
                assert_eq!(off, l + 4 * c + (s + 1) / 2, "L={} C={} S={}", l, c, s);
            }
        }
    }
}

/// Build a synthetic record's variable part: name bytes, CIGAR slots,
/// packed sequence, quality bytes, then a trailing tag block.
fn synthetic_record(
    name: &[u8],
    cigar_count: usize,
    quality: &[u8],
    tag_bytes: usize,
) -> Vec<u8> {
    let mut buf = Vec::new();
    buf.extend_from_slice(name);
    for i in 0..cigar_count * 4 {
        buf.push(0x10 + i as u8);
    }
    for i in 0..(quality.len() + 1) / 2 {
        buf.push(0x44 + i as u8);
    }
    buf.extend_from_slice(quality);
    for i in 0..tag_bytes {
        buf.push(0xa0 + i as u8);
    }
    buf
}

#[test]
fn surgical_mutation_touches_only_quality() {
    let name = b"some_read\0";
    let quality: Vec<u8> = (0..50u8).map(|i| (i * 5) % 101).collect();
    let before = synthetic_record(name, 3, &quality, 17);
    for mode in [BinMode::Coarse, BinMode::Fine] {
        let mut buf = before.clone();
        let off = transform_record(&mut buf, name.len(), 3, quality.len(), mode);
        assert_eq!(off, name.len() + 12 + 25);
        assert_eq!(buf.len(), before.len());
        for i in 0..buf.len() {
            if i >= off && i < off + quality.len() {
                assert_eq!(buf[i], bin(mode, before[i]), "inside region at {}", i);
            } else {
                assert_eq!(buf[i], before[i], "outside region at {}", i);
            }
        }
    }
}

#[test]
fn zero_length_sequence_is_a_no_op() {
    let before = synthetic_record(b"x\0", 1, &[], 5);
    let mut buf = before.clone();
    let off = transform_record(&mut buf, 2, 1, 0, BinMode::Coarse);
    assert_eq!(off, 6);
    assert_eq!(buf, before);
}

#[test]
fn end_to_end_record_example() {
    // One record: name "read1\0" (6 bytes), 2 CIGAR operations (8
    // bytes), sequence length 4 (2 packed bytes), qualities [5,12,25,45].
    let name = b"read1\0";
    let quality = [5u8, 12, 25, 45];
    let before = synthetic_record(name, 2, &quality, 0);
    assert_eq!(before.len(), 6 + 8 + 2 + 4);

    let mut coarse = before.clone();
    let off = transform_record(&mut coarse, 6, 2, 4, BinMode::Coarse);
    assert_eq!(off, 16);
    assert_eq!(coarse.len(), before.len());
    // 25 sits in the coarse table's last band (23 and above), so it
    // maps to the final representative 30.
    assert_eq!(&coarse[16..20], &[5, 10, 30, 30]);
    assert_eq!(&coarse[..16], &before[..16]);

    let mut fine = before.clone();
    transform_record(&mut fine, 6, 2, 4, BinMode::Fine);
    assert_eq!(fine.len(), before.len());
    assert_eq!(&fine[16..20], &[6, 15, 27, 40]);
    assert_eq!(&fine[..16], &before[..16]);
}

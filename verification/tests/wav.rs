use std::io::Cursor;
use translate::wav::{
    assemble_ir, classify_wav, probe_wav, IrDecodeError, SampleDecoding, SampleKind, WavHeader,
};

fn wav_bytes(channels: u16, bits: u16, format: hound::SampleFormat, frames: usize) -> Vec<u8> {
    let spec = hound::WavSpec {
        channels,
        sample_rate: 22_050,
        bits_per_sample: bits,
        sample_format: format,
    };
    let mut cursor = Cursor::new(Vec::new());
    {
        let mut writer = hound::WavWriter::new(&mut cursor, spec).unwrap();
        for i in 0..frames * channels as usize {
            if format == hound::SampleFormat::Float {
                writer.write_sample(i as f32 * 0.01).unwrap();
            } else {
                writer.write_sample(i as i16).unwrap();
            }
        }
        writer.finalize().unwrap();
    }
    cursor.into_inner()
}

fn header(channels: u16, bits: u16, sample_format: SampleKind) -> WavHeader {
    WavHeader { channels, sample_rate: 48_000, bits_per_sample: bits, sample_format }
}

#[test]
fn classify_accepts_float32_and_int_up_to_32_bits() {
    assert_eq!(classify_wav(&header(2, 32, SampleKind::Float)).unwrap(), SampleDecoding::Float32);
    assert_eq!(
        classify_wav(&header(1, 16, SampleKind::Int)).unwrap(),
        SampleDecoding::Int { max_amplitude: 32_767 }
    );
    assert_eq!(
        classify_wav(&header(2, 24, SampleKind::Int)).unwrap(),
        SampleDecoding::Int { max_amplitude: 8_388_607 }
    );
    assert_eq!(
        classify_wav(&header(2, 32, SampleKind::Int)).unwrap(),
        SampleDecoding::Int { max_amplitude: 2_147_483_647 }
    );
    assert_eq!(
        classify_wav(&header(1, 8, SampleKind::Int)).unwrap(),
        SampleDecoding::Int { max_amplitude: 127 }
    );
}

#[test]
fn classify_refuses_other_layouts() {
    assert!(matches!(
        classify_wav(&header(0, 16, SampleKind::Int)),
        Err(IrDecodeError::UnsupportedChannelCount(0))
    ));
    assert!(matches!(
        classify_wav(&header(3, 16, SampleKind::Int)),
        Err(IrDecodeError::UnsupportedChannelCount(3))
    ));
    assert!(matches!(
        classify_wav(&header(2, 64, SampleKind::Float)),
        Err(IrDecodeError::UnsupportedFormat { sample_format: SampleKind::Float, bits_per_sample: 64 })
    ));
    assert!(matches!(
        classify_wav(&header(1, 40, SampleKind::Int)),
        Err(IrDecodeError::UnsupportedFormat { sample_format: SampleKind::Int, bits_per_sample: 40 })
    ));
}

#[test]
fn probe_reads_header_with_hound() {
    let bytes = wav_bytes(2, 16, hound::SampleFormat::Int, 4);
    let (h, decoding) = probe_wav(&bytes).unwrap();
    assert_eq!(h, WavHeader { channels: 2, sample_rate: 22_050, bits_per_sample: 16, sample_format: SampleKind::Int });
    assert_eq!(decoding, SampleDecoding::Int { max_amplitude: 32_767 });

    let bytes = wav_bytes(1, 32, hound::SampleFormat::Float, 3);
    let (h, decoding) = probe_wav(&bytes).unwrap();
    assert_eq!(h.channels, 1);
    assert_eq!(h.sample_format, SampleKind::Float);
    assert_eq!(decoding, SampleDecoding::Float32);
}

#[test]
fn probe_refuses_what_hound_refuses_or_what_is_unsupported() {
    assert!(matches!(probe_wav(b"not a wav file"), Err(IrDecodeError::Open(_))));
    assert!(matches!(probe_wav(&[]), Err(IrDecodeError::Open(_))));
    let bytes = wav_bytes(3, 16, hound::SampleFormat::Int, 2);
    assert!(matches!(probe_wav(&bytes), Err(IrDecodeError::UnsupportedChannelCount(3))));
}

#[test]
fn assemble_splits_stereo_frames() {
    let h = header(2, 16, SampleKind::Int);
    let ir = assemble_ir(&h, &vec![1, 2, 3, 4, 5, 6, 7]).unwrap();
    assert_eq!(ir.left, vec![1, 3, 5]);
    assert_eq!(ir.right, vec![2, 4, 6]);
    assert_eq!(ir.sample_rate, 48_000);
}

#[test]
fn assemble_duplicates_mono() {
    let h = header(1, 16, SampleKind::Int);
    let ir = assemble_ir(&h, &vec![9, 8, 7]).unwrap();
    assert_eq!(ir.left, vec![9, 8, 7]);
    assert_eq!(ir.right, vec![9, 8, 7]);
}

#[test]
fn assemble_refuses_empty_streams() {
    assert!(matches!(assemble_ir(&header(1, 16, SampleKind::Int), &Vec::<i32>::new()), Err(IrDecodeError::NoSamples)));
    assert!(matches!(assemble_ir(&header(2, 16, SampleKind::Int), &vec![5]), Err(IrDecodeError::NoSamples)));
}

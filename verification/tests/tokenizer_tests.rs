use speech_pipeline::qwen3_speech_tokenizer::{
    causal_conv_padding, codebook_weight_name, codec_layout, debug_list_string,
    decoder_block_plan, kept_upsample_stages, part_required, DecodeError, DecoderPart,
    EncoderConfig, NUM_CODEBOOKS,
};

#[test]
fn layout_of_two_and_three_dimensional_grids() {
    let l = codec_layout(&vec![16, 50], 16).ok().unwrap();
    assert!(!l.batched);
    assert_eq!((l.num_quantizers, l.seq_len, l.num_codebooks), (16, 50, 16));
    let l = codec_layout(&vec![1, 15, 40], 16).ok().unwrap();
    assert!(l.batched);
    assert_eq!((l.num_quantizers, l.seq_len, l.num_codebooks), (15, 40, 15));
    let l = codec_layout(&vec![20, 3], 16).ok().unwrap();
    assert_eq!(l.num_codebooks, 16);
}

#[test]
fn layout_refuses_other_shapes() {
    match codec_layout(&vec![1, 2, 3, 4], 16) {
        Err(e) => {
            assert!(matches!(e, DecodeError::UnexpectedShape(_)));
            assert_eq!(
                e.message(),
                "Expected codec_tokens shape (num_quantizers, seq_len) or (batch, num_quantizers, seq_len), got [1, 2, 3, 4]"
            );
        }
        Ok(_) => panic!("expected an error"),
    }
    match codec_layout(&vec![0, 10], 16) {
        Err(e) => assert_eq!(e.message(), "No codebooks processed"),
        Ok(_) => panic!("expected an error"),
    }
}

#[test]
fn debug_list_matches_debug_formatting() {
    for d in [vec![], vec![7], vec![1, 22, 333]] {
        assert_eq!(debug_list_string(&d), format!("{:?}", d));
    }
}

#[test]
fn codebook_names() {
    assert_eq!(NUM_CODEBOOKS, 16);
    assert_eq!(codebook_weight_name(0), "decoder.quantizer.rvq_first.vq.layers.0._codebook.embedding_sum");
    assert_eq!(codebook_weight_name(1), "decoder.quantizer.rvq_rest.vq.layers.0._codebook.embedding_sum");
    assert_eq!(codebook_weight_name(15), "decoder.quantizer.rvq_rest.vq.layers.14._codebook.embedding_sum");
}

#[test]
fn conv_geometry() {
    assert_eq!(causal_conv_padding(7, 1, 1), 6);
    assert_eq!(causal_conv_padding(7, 1, 3), 18);
    assert_eq!(causal_conv_padding(2, 2, 1), 0);
    let plan = decoder_block_plan();
    assert_eq!(plan.len(), 4);
    assert_eq!((plan[0].in_dim, plan[0].out_dim, plan[0].upsample_rate), (1536, 768, 8));
    assert_eq!((plan[3].in_dim, plan[3].out_dim, plan[3].upsample_rate), (192, 96, 3));
    let total: usize = plan.iter().map(|b| b.upsample_rate).product();
    assert_eq!(total, 480);
    let e = EncoderConfig { codebook_dim: 256, codebook_size: 2048 };
    assert_eq!(e.codebook_dim * 8, e.codebook_size);
}

#[test]
fn only_codebooks_pre_transformer_and_blocks_are_required() {
    assert!(part_required(DecoderPart::Codebook));
    assert!(part_required(DecoderPart::PreTransformer));
    assert!(part_required(DecoderPart::DecoderBlock));
    assert!(!part_required(DecoderPart::OutputProjection));
    assert!(!part_required(DecoderPart::PreConv));
    assert!(!part_required(DecoderPart::InitialConv));
    assert!(!part_required(DecoderPart::FinalActivation));
    assert!(!part_required(DecoderPart::FinalConv));
    assert!(!part_required(DecoderPart::UpsampleConv));
    assert!(!part_required(DecoderPart::UpsampleConvNeXt));
}

#[test]
fn upsample_stages_need_both_halves() {
    assert_eq!(kept_upsample_stages(&[true, true], &[true, true]), vec![0, 1]);
    assert_eq!(kept_upsample_stages(&[true, false], &[true, true]), vec![0]);
    assert_eq!(kept_upsample_stages(&[true, true], &[false, true]), vec![1]);
    assert!(kept_upsample_stages(&[false, false], &[true, true]).is_empty());
}

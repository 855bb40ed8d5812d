use mistralai_client::v1::constants::{EmbedModel, Model};

const ALL_MODELS: [Model; 10] = [
    Model::PixtralLarge,
    Model::Pixtral,
    Model::Ministral3b,
    Model::Ministral8b,
    Model::MistralSaba,
    Model::MistralNemo,
    Model::MistralSmall,
    Model::MistralLarge,
    Model::Codestral,
    Model::CodestralMamba,
];

#[test]
fn model_ids() {
    assert_eq!(Model::PixtralLarge.id(), "pixtral-large-2411");
    assert_eq!(Model::Pixtral.id(), "pixtral-12b-2409");
    assert_eq!(Model::Ministral3b.id(), "ministral-3b-2410");
    assert_eq!(Model::Ministral8b.id(), "ministral-8b-2410");
    assert_eq!(Model::MistralSaba.id(), "mistral-saba-2502");
    assert_eq!(Model::MistralNemo.id(), "open-mistral-nemo");
    assert_eq!(Model::MistralSmall.id(), "mistral-small-2501");
    assert_eq!(Model::MistralLarge.id(), "mistral-large-2411");
    assert_eq!(Model::Codestral.id(), "codestral-2501");
    assert_eq!(Model::CodestralMamba.id(), "open-codestral-mamba");
}

#[test]
fn model_id_round_trip() {
    for m in ALL_MODELS {
        assert_eq!(Model::from_id(m.id()), Some(m));
    }
}

#[test]
fn model_alias_and_unknown() {
    assert_eq!(Model::from_id("open-mistral-nemo-2407"), Some(Model::MistralNemo));
    assert_eq!(Model::from_id("open-mistral-7b"), None);
    assert_eq!(Model::from_id(""), None);
    assert_eq!(Model::from_id("Codestral-2501"), None);
}

#[test]
fn embed_model_ids() {
    assert_eq!(EmbedModel::MistralEmbed.id(), "mistral-embed");
    assert_eq!(EmbedModel::from_id("mistral-embed"), Some(EmbedModel::MistralEmbed));
    assert_eq!(EmbedModel::from_id("mistral-embed-2"), None);
}

use crate::v1::text::str_eq;
use vstd::prelude::*;

verus! {

/// The base URL of the Mistral AI platform API.
pub const API_URL_BASE: &'static str = "https://api.mistral.ai/v1";

/// The chat models that the API serves.
#[derive(Clone, Copy, Debug, PartialEq, Eq, Structural)]
pub enum Model {
    PixtralLarge,
    Pixtral,
    Ministral3b,
    Ministral8b,
    MistralSaba,
    MistralNemo,
    MistralSmall,
    MistralLarge,
    Codestral,
    CodestralMamba,
}

/// The identifier under which a chat model is sent to the API.
pub open spec fn model_id(m: Model) -> Seq<char> {
    match m {
        Model::PixtralLarge => "pixtral-large-2411"@,
        Model::Pixtral => "pixtral-12b-2409"@,
        Model::Ministral3b => "ministral-3b-2410"@,
        Model::Ministral8b => "ministral-8b-2410"@,
        Model::MistralSaba => "mistral-saba-2502"@,
        Model::MistralNemo => "open-mistral-nemo"@,
        Model::MistralSmall => "mistral-small-2501"@,
        Model::MistralLarge => "mistral-large-2411"@,
        Model::Codestral => "codestral-2501"@,
        Model::CodestralMamba => "open-codestral-mamba"@,
    }
}

/// The chat model that an identifier received from the API names: every
/// model's own identifier, and the dated alias of the Nemo model.
pub open spec fn model_from_id(s: Seq<char>) -> Option<Model> {
    if s == "pixtral-large-2411"@ {
        Some(Model::PixtralLarge)
    } else if s == "pixtral-12b-2409"@ {
        Some(Model::Pixtral)
    } else if s == "ministral-3b-2410"@ {
        Some(Model::Ministral3b)
    } else if s == "ministral-8b-2410"@ {
        Some(Model::Ministral8b)
    } else if s == "mistral-saba-2502"@ {
        Some(Model::MistralSaba)
    } else if s == "open-mistral-nemo"@ || s == "open-mistral-nemo-2407"@ {
        Some(Model::MistralNemo)
    } else if s == "mistral-small-2501"@ {
        Some(Model::MistralSmall)
    } else if s == "mistral-large-2411"@ {
        Some(Model::MistralLarge)
    } else if s == "codestral-2501"@ {
        Some(Model::Codestral)
    } else if s == "open-codestral-mamba"@ {
        Some(Model::CodestralMamba)
    } else {
        None
    }
}

impl Model {
    /// The identifier under which this model is sent to the API.
    pub fn id(&self) -> (r: &'static str)
        ensures
            r@ == model_id(*self),
    {
        match self {
            Model::PixtralLarge => "pixtral-large-2411",
            Model::Pixtral => "pixtral-12b-2409",
            Model::Ministral3b => "ministral-3b-2410",
            Model::Ministral8b => "ministral-8b-2410",
            Model::MistralSaba => "mistral-saba-2502",
            Model::MistralNemo => "open-mistral-nemo",
            Model::MistralSmall => "mistral-small-2501",
            Model::MistralLarge => "mistral-large-2411",
            Model::Codestral => "codestral-2501",
            Model::CodestralMamba => "open-codestral-mamba",
        }
    }

    /// Reads a model identifier as the API writes it.
    pub fn from_id(s: &str) -> (r: Option<Model>)
        ensures
            r == model_from_id(s@),
    {
        if str_eq(s, "pixtral-large-2411") {
            Some(Model::PixtralLarge)
        } else if str_eq(s, "pixtral-12b-2409") {
            Some(Model::Pixtral)
        } else if str_eq(s, "ministral-3b-2410") {
            Some(Model::Ministral3b)
        } else if str_eq(s, "ministral-8b-2410") {
            Some(Model::Ministral8b)
        } else if str_eq(s, "mistral-saba-2502") {
            Some(Model::MistralSaba)
        } else if str_eq(s, "open-mistral-nemo") || str_eq(s, "open-mistral-nemo-2407") {
            Some(Model::MistralNemo)
        } else if str_eq(s, "mistral-small-2501") {
            Some(Model::MistralSmall)
        } else if str_eq(s, "mistral-large-2411") {
            Some(Model::MistralLarge)
        } else if str_eq(s, "codestral-2501") {
            Some(Model::Codestral)
        } else if str_eq(s, "open-codestral-mamba") {
            Some(Model::CodestralMamba)
        } else {
            None
        }
    }
}

/// Reading the identifier that a model is written under gives back that model.
pub proof fn law_model_id_round_trip(m: Model)
    ensures
        model_from_id(model_id(m)) == Some(m),
{
    reveal_strlit("pixtral-large-2411");
    reveal_strlit("pixtral-12b-2409");
    reveal_strlit("ministral-3b-2410");
    reveal_strlit("ministral-8b-2410");
    reveal_strlit("mistral-saba-2502");
    reveal_strlit("open-mistral-nemo");
    reveal_strlit("open-mistral-nemo-2407");
    reveal_strlit("mistral-small-2501");
    reveal_strlit("mistral-large-2411");
    reveal_strlit("codestral-2501");
    reveal_strlit("open-codestral-mamba");
    match m {
        Model::PixtralLarge => {
        },
        Model::Pixtral => {
            assert(model_id(m).len() != "pixtral-large-2411"@.len());
        },
        Model::Ministral3b => {
            assert(model_id(m).len() != "pixtral-large-2411"@.len());
            assert(model_id(m).len() != "pixtral-12b-2409"@.len());
        },
        Model::Ministral8b => {
            assert(model_id(m).len() != "pixtral-large-2411"@.len());
            assert(model_id(m).len() != "pixtral-12b-2409"@.len());
            assert(model_id(m)[10] != "ministral-3b-2410"@[10]);
        },
        Model::MistralSaba => {
            assert(model_id(m).len() != "pixtral-large-2411"@.len());
            assert(model_id(m).len() != "pixtral-12b-2409"@.len());
            assert(model_id(m)[2] != "ministral-3b-2410"@[2]);
            assert(model_id(m)[2] != "ministral-8b-2410"@[2]);
        },
        Model::MistralNemo => {
            assert(model_id(m).len() != "pixtral-large-2411"@.len());
            assert(model_id(m).len() != "pixtral-12b-2409"@.len());
            assert(model_id(m)[0] != "ministral-3b-2410"@[0]);
            assert(model_id(m)[0] != "ministral-8b-2410"@[0]);
            assert(model_id(m)[0] != "mistral-saba-2502"@[0]);
        },
        Model::MistralSmall => {
            assert(model_id(m)[0] != "pixtral-large-2411"@[0]);
            assert(model_id(m).len() != "pixtral-12b-2409"@.len());
            assert(model_id(m).len() != "ministral-3b-2410"@.len());
            assert(model_id(m).len() != "ministral-8b-2410"@.len());
            assert(model_id(m).len() != "mistral-saba-2502"@.len());
            assert(model_id(m).len() != "open-mistral-nemo"@.len());
            assert(model_id(m).len() != "open-mistral-nemo-2407"@.len());
        },
        Model::MistralLarge => {
            assert(model_id(m)[0] != "pixtral-large-2411"@[0]);
            assert(model_id(m).len() != "pixtral-12b-2409"@.len());
            assert(model_id(m).len() != "ministral-3b-2410"@.len());
            assert(model_id(m).len() != "ministral-8b-2410"@.len());
            assert(model_id(m).len() != "mistral-saba-2502"@.len());
            assert(model_id(m).len() != "open-mistral-nemo"@.len());
            assert(model_id(m).len() != "open-mistral-nemo-2407"@.len());
            assert(model_id(m)[8] != "mistral-small-2501"@[8]);
        },
        Model::Codestral => {
            assert(model_id(m).len() != "pixtral-large-2411"@.len());
            assert(model_id(m).len() != "pixtral-12b-2409"@.len());
            assert(model_id(m).len() != "ministral-3b-2410"@.len());
            assert(model_id(m).len() != "ministral-8b-2410"@.len());
            assert(model_id(m).len() != "mistral-saba-2502"@.len());
            assert(model_id(m).len() != "open-mistral-nemo"@.len());
            assert(model_id(m).len() != "open-mistral-nemo-2407"@.len());
            assert(model_id(m).len() != "mistral-small-2501"@.len());
            assert(model_id(m).len() != "mistral-large-2411"@.len());
        },
        Model::CodestralMamba => {
            assert(model_id(m).len() != "pixtral-large-2411"@.len());
            assert(model_id(m).len() != "pixtral-12b-2409"@.len());
            assert(model_id(m).len() != "ministral-3b-2410"@.len());
            assert(model_id(m).len() != "ministral-8b-2410"@.len());
            assert(model_id(m).len() != "mistral-saba-2502"@.len());
            assert(model_id(m).len() != "open-mistral-nemo"@.len());
            assert(model_id(m).len() != "open-mistral-nemo-2407"@.len());
            assert(model_id(m).len() != "mistral-small-2501"@.len());
            assert(model_id(m).len() != "mistral-large-2411"@.len());
            assert(model_id(m).len() != "codestral-2501"@.len());
        },
    }
}

/// The embedding models that the API serves.
#[derive(Clone, Copy, Debug, PartialEq, Eq, Structural)]
pub enum EmbedModel {
    MistralEmbed,
}

/// The identifier under which an embedding model is sent to the API.
pub open spec fn embed_model_id(m: EmbedModel) -> Seq<char> {
    match m {
        EmbedModel::MistralEmbed => "mistral-embed"@,
    }
}

/// The embedding model that an identifier received from the API names.
pub open spec fn embed_model_from_id(s: Seq<char>) -> Option<EmbedModel> {
    if s == "mistral-embed"@ {
        Some(EmbedModel::MistralEmbed)
    } else {
        None
    }
}

impl EmbedModel {
    /// The identifier under which this model is sent to the API.
    pub fn id(&self) -> (r: &'static str)
        ensures
            r@ == embed_model_id(*self),
    {
        match self {
            EmbedModel::MistralEmbed => "mistral-embed",
        }
    }

    /// Reads an embedding model identifier as the API writes it.
    pub fn from_id(s: &str) -> (r: Option<EmbedModel>)
        ensures
            r == embed_model_from_id(s@),
    {
        if str_eq(s, "mistral-embed") {
            Some(EmbedModel::MistralEmbed)
        } else {
            None
        }
    }
}

/// Reading the identifier that an embedding model is written under gives back that model.
pub proof fn law_embed_model_id_round_trip(m: EmbedModel)
    ensures
        embed_model_from_id(embed_model_id(m)) == Some(m),
{
}

/// The only identifier read as an embedding model is the one it is written
/// under: any other text names no embedding model.
pub proof fn law_embed_model_from_id_only_own(s: Seq<char>, m: EmbedModel)
    ensures
        embed_model_from_id(s) == Some(m) ==> s == embed_model_id(m),
        s != "mistral-embed"@ ==> embed_model_from_id(s) is None,
{
}

/// A text is read as a chat model only when it is that model's own
/// identifier, or the dated alias `open-mistral-nemo-2407` of the Nemo model;
/// every other text names no model.
pub proof fn law_model_from_id_only_own(s: Seq<char>, m: Model)
    ensures
        model_from_id(s) == Some(m) ==> (s == model_id(m) || (m == Model::MistralNemo && s
            == "open-mistral-nemo-2407"@)),
        (forall|m2: Model| s != #[trigger] model_id(m2)) && s != "open-mistral-nemo-2407"@
            ==> model_from_id(s) is None,
{
    if (forall|m2: Model| s != #[trigger] model_id(m2)) && s != "open-mistral-nemo-2407"@ {
        assert(s != model_id(Model::PixtralLarge));
        assert(s != model_id(Model::Pixtral));
        assert(s != model_id(Model::Ministral3b));
        assert(s != model_id(Model::Ministral8b));
        assert(s != model_id(Model::MistralSaba));
        assert(s != model_id(Model::MistralNemo));
        assert(s != model_id(Model::MistralSmall));
        assert(s != model_id(Model::MistralLarge));
        assert(s != model_id(Model::Codestral));
        assert(s != model_id(Model::CodestralMamba));
    }
}

} // verus!

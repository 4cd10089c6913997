//! The reference tool: a stub that quotes a fixed price for any ticker. It
//! illustrates the capability contract every loaded plugin module meets —
//! a name, a description, a JSON-schema parameter description, and a
//! fallible `execute` over opaque JSON-text arguments.
use vstd::prelude::*;

use crate::json::Json;
use crate::json::JsonV;
use crate::registry::ToolEntry;

verus! {

/// The schema the price tool announces: a required `ticker` and an
/// optional `currency`, both strings.
pub open spec fn spec_price_tool_parameters() -> JsonV {
    JsonV::Obj(
        seq![
            ("type"@, JsonV::Str("object"@)),
            (
                "properties"@,
                JsonV::Obj(
                    seq![
                        (
                            "ticker"@,
                            JsonV::Obj(
                                seq![
                                    ("type"@, JsonV::Str("string"@)),
                                    (
                                        "description"@,
                                        JsonV::Str("Ticker of the asset (for example: AAPL)"@),
                                    ),
                                ],
                            ),
                        ),
                        (
                            "currency"@,
                            JsonV::Obj(
                                seq![
                                    ("type"@, JsonV::Str("string"@)),
                                    (
                                        "description"@,
                                        JsonV::Str("Currency of the quoted price"@),
                                    ),
                                    ("default"@, JsonV::Str("USD"@)),
                                ],
                            ),
                        ),
                    ],
                ),
            ),
            ("required"@, JsonV::Arr(seq![JsonV::Str("ticker"@)])),
        ],
    )
}

/// The stub price tool.
pub struct AssetPriceTool;

impl AssetPriceTool {
    /// The name the model calls this tool by.
    pub fn name(&self) -> (r: String)
        ensures
            r@ == "get_current_price"@,
    {
        "get_current_price".to_owned()
    }

    /// What the tool does, announced to the model.
    pub fn description(&self) -> (r: String)
        ensures
            r@ == "Get the current price of an asset by its ticker"@,
    {
        "Get the current price of an asset by its ticker".to_owned()
    }

    /// The JSON-schema description of the tool's arguments.
    pub fn parameters(&self) -> (r: Json)
        ensures
            r.deep_view() == spec_price_tool_parameters(),
    {
        let mut ticker: Vec<(String, Json)> = Vec::new();
        crate::codec::push_field(&mut ticker, "type", Json::Str("string".to_owned()));
        crate::codec::push_field(
            &mut ticker,
            "description",
            Json::Str("Ticker of the asset (for example: AAPL)".to_owned()),
        );
        proof {
            assert(ticker.deep_view() =~= seq![
                ("type"@, JsonV::Str("string"@)),
                ("description"@, JsonV::Str("Ticker of the asset (for example: AAPL)"@)),
            ]);
        }
        let ticker_schema = crate::codec::seal_obj(ticker);
        let mut currency: Vec<(String, Json)> = Vec::new();
        crate::codec::push_field(&mut currency, "type", Json::Str("string".to_owned()));
        crate::codec::push_field(
            &mut currency,
            "description",
            Json::Str("Currency of the quoted price".to_owned()),
        );
        crate::codec::push_field(&mut currency, "default", Json::Str("USD".to_owned()));
        proof {
            assert(currency.deep_view() =~= seq![
                ("type"@, JsonV::Str("string"@)),
                ("description"@, JsonV::Str("Currency of the quoted price"@)),
                ("default"@, JsonV::Str("USD"@)),
            ]);
        }
        let currency_schema = crate::codec::seal_obj(currency);
        let mut properties: Vec<(String, Json)> = Vec::new();
        crate::codec::push_field(&mut properties, "ticker", ticker_schema);
        crate::codec::push_field(&mut properties, "currency", currency_schema);
        proof {
            assert(properties.deep_view() =~~= spec_price_tool_parameters()->Obj_0[1].1->Obj_0);
        }
        let properties_schema = crate::codec::seal_obj(properties);
        let mut required: Vec<Json> = Vec::new();
        required.push(Json::Str("ticker".to_owned()));
        let ghost rdv = required.deep_view();
        proof {
            assert(rdv =~= seq![JsonV::Str("ticker"@)]);
        }
        let required_arr = crate::codec::seal_arr(required);
        let mut root: Vec<(String, Json)> = Vec::new();
        crate::codec::push_field(&mut root, "type", Json::Str("object".to_owned()));
        crate::codec::push_field(&mut root, "properties", properties_schema);
        crate::codec::push_field(&mut root, "required", required_arr);
        proof {
            assert(spec_price_tool_parameters()->Obj_0[1].1 == JsonV::Obj(
                spec_price_tool_parameters()->Obj_0[1].1->Obj_0,
            ));
            assert(root.deep_view() =~~= spec_price_tool_parameters()->Obj_0);
        }
        let r = crate::codec::seal_obj(root);
        proof {
            assert(r.deep_view() =~~= spec_price_tool_parameters());
        }
        r
    }

    /// Runs the tool: the stub quotes one fixed value in USD, whatever the
    /// arguments say.
    pub fn execute(&self, _arguments: &String) -> (r: Result<String, String>)
        ensures
            r matches Ok(p) && p@ == "{\"price\":{\"value\":123.45,\"currency\":\"USD\"}}"@,
    {
        Ok("{\"price\":{\"value\":123.45,\"currency\":\"USD\"}}".to_owned())
    }

    /// The registry entry this tool registers under.
    pub fn entry(&self, handle: usize) -> (r: ToolEntry)
        ensures
            r.name@ == "get_current_price"@,
            r.description@ == "Get the current price of an asset by its ticker"@,
            r.parameters.deep_view() == spec_price_tool_parameters(),
            r.handle == handle,
    {
        ToolEntry {
            name: self.name(),
            description: self.description(),
            parameters: self.parameters(),
            handle,
        }
    }
}

} // verus!

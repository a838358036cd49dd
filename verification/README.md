# sylvia_derive

The code generators behind sylvia's `interface`, `contract` and
`entry_points` macros, written in Verus.

- `src/` is the verified library. It works on a flat model of token
  streams (`tokens`): attribute grammars (`grammar`, `parser`), the
  bookkeeping of generics (`check_generics`), associated types
  (`associated_types`), interfaces (`interfaces`, `interface`), contracts
  (`contract`), reply planning (`reply`) and the code generated for
  replies (`reply_emit`), entry points (`entry_points`), the query and
  execution helpers of contracts (`querier`, `executor`) and of interfaces
  (`interface_helpers`), the MultiTest proxy of interfaces (`mt`), the
  MultiTest helpers of contracts (`multitest`) and of interface
  implementations (`impl_mt`), the wrapper messages of contracts (`glue`),
  the message structs of instantiation and migration (`struct_msg`), the
  message enums of contracts (`enum_msg`) and of interfaces
  (`interface_enum_msg`), the `ContractApi` and `InterfaceMessagesApi`
  implementations (`api`, `interface_api`), the instantiate builder
  (`instantiate_builder`), message kinds (`msg_type`), diagnostics
  (`diag`), the selection of items kept by the build script (`mod_folder`)
  and the types of the `cw1` interface (`cw1`). `compose` puts them
  together: it computes, from a contract's or an interface's methods, the
  variants, dispatch arms and constructors of its message enums, the
  generics or associated types its messages use, and the methods of its
  MultiTest proxy, and builds the whole generated module `sv`
  (`ContractInput::process`, `InterfaceInput::process`); `copies` makes
  the copies of the model that several generators read. `expand` is what
  the macros do with a plain model of the item they are applied to: which
  methods declare messages, their fields and query responses, the
  generated module with a contract's reply handling inside it, and every
  diagnostic (`contract_expand`, `interface_expand`,
  `entry_points_expand`); `mod_folder::module_source` decides where the
  build script loads a module's content from. Each generator's contract
  gives the exact token sequence it produces; the laws of the library are
  public proof functions (`reply_plan_laws`, `used_unused_partition`,
  `entry_points_module_follows_plan`, `redundant_as_law`,
  `querier_impl_matches_declaration`, `executor_impl_matches_declaration`,
  `querier_method_per_query`, `executor_method_per_message`,
  `iface_querier_method_per_query`, `iface_executor_method_per_message`,
  `mt_method_per_message`, `glue_covers_each_interface`,
  `message_names_sorted`, `proxy_method_per_message`,
  `enum_parts_per_message`, `used_generics_law`). Diagnostics carry their
  message and their notes (`Diag::message`, `Diag::notes`).
- `app/` holds the front ends: conversion between `proc_macro2`/`syn` and
  the model, the macros' entry functions (they parse the item with `syn`,
  hand its model to `expand`, and put the item back without the
  attributes the generators read), compiler errors for diagnostics, and
  the build script's file reading and JSON output.
- `tests/` exercises the library on concrete inputs.

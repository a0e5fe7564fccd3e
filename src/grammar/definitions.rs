//! The non-terminals of the grammar. Each variant is one production, named after
//! the terms of its right-hand side, delimited by `_`.
#![allow(non_camel_case_types)]

use vstd::prelude::*;

verus! {

#[derive(Clone, Copy, Debug, PartialEq, Eq, Structural)]
pub enum AbortMigrationStmt {
    ABORT_MIGRATION,
    ABORT_MIGRATION_REWRITE,
}

#[derive(Clone, Copy, Debug, PartialEq, Eq, Structural)]
pub enum AccessKind {
    ALL,
    DELETE,
    INSERT,
    SELECT,
    UPDATE,
    UPDATE_READ,
    UPDATE_WRITE,
}

#[derive(Clone, Copy, Debug, PartialEq, Eq, Structural)]
pub enum AccessKindList {
    AccessKind,
    AccessKindList_COMMA_AccessKind,
}

#[derive(Clone, Copy, Debug, PartialEq, Eq, Structural)]
pub enum AccessPermStmt {
    AccessPolicyAction_AccessKindList,
}

#[derive(Clone, Copy, Debug, PartialEq, Eq, Structural)]
pub enum AccessPolicyAction {
    ALLOW,
    DENY,
}

#[derive(Clone, Copy, Debug, PartialEq, Eq, Structural)]
pub enum AccessPolicyDeclarationBlock {
    ACCESS_POLICY_ShortNodeName_OptWhenBlock_AccessPolicyAction_AccessKindList_OptUsingBlock_CreateAccessPolicySDLCommandsBlock,
}

#[derive(Clone, Copy, Debug, PartialEq, Eq, Structural)]
pub enum AccessPolicyDeclarationShort {
    ACCESS_POLICY_ShortNodeName_OptWhenBlock_AccessPolicyAction_AccessKindList_OptUsingBlock,
}

#[derive(Clone, Copy, Debug, PartialEq, Eq, Structural)]
pub enum AccessUsingStmt {
    RESET_EXPRESSION,
    USING_ParenExpr,
}

#[derive(Clone, Copy, Debug, PartialEq, Eq, Structural)]
pub enum AccessWhenStmt {
    RESET_WHEN,
    WHEN_ParenExpr,
}

#[derive(Clone, Copy, Debug, PartialEq, Eq, Structural)]
pub enum AdministerStmt {
    ADMINISTER_FuncExpr,
}

#[derive(Clone, Copy, Debug, PartialEq, Eq, Structural)]
pub enum AliasDecl {
    AliasedExpr,
    Identifier_ASSIGN_ExprStmtSimple,
    Identifier_AS_MODULE_ModuleName,
    MODULE_ModuleName,
}

#[derive(Clone, Copy, Debug, PartialEq, Eq, Structural)]
pub enum AliasDeclaration {
    ALIAS_NodeName_CreateAliasSDLCommandsBlock,
}

#[derive(Clone, Copy, Debug, PartialEq, Eq, Structural)]
pub enum AliasDeclarationShort {
    ALIAS_NodeName_CreateAliasSingleSDLCommandBlock,
    ALIAS_NodeName_ASSIGN_GenExpr,
}

#[derive(Clone, Copy, Debug, PartialEq, Eq, Structural)]
pub enum AliasedExpr {
    Identifier_ASSIGN_Expr,
}

#[derive(Clone, Copy, Debug, PartialEq, Eq, Structural)]
pub enum AliasedExprList {
    AliasedExprListInner,
    AliasedExprListInner_COMMA,
}

#[derive(Clone, Copy, Debug, PartialEq, Eq, Structural)]
pub enum AliasedExprListInner {
    AliasedExpr,
    AliasedExprListInner_COMMA_AliasedExpr,
}

#[derive(Clone, Copy, Debug, PartialEq, Eq, Structural)]
pub enum AlterAbstract {
    DROP_ABSTRACT,
    RESET_ABSTRACT,
    SET_ABSTRACT,
    SET_NOT_ABSTRACT,
}

#[derive(Clone, Copy, Debug, PartialEq, Eq, Structural)]
pub enum AlterAccessPolicyCommand {
    AccessPermStmt,
    AccessUsingStmt,
    AccessWhenStmt,
    AlterAnnotationValueStmt,
    CreateAnnotationValueStmt,
    DropAnnotationValueStmt,
    RenameStmt,
    ResetFieldStmt,
    SetFieldStmt,
}

#[derive(Clone, Copy, Debug, PartialEq, Eq, Structural)]
pub enum AlterAccessPolicyCommandsBlock {
    AlterAccessPolicyCommand,
    LBRACE_AlterAccessPolicyCommandsList_OptSemicolons_RBRACE,
    LBRACE_OptSemicolons_RBRACE,
    LBRACE_Semicolons_AlterAccessPolicyCommandsList_OptSemicolons_RBRACE,
}

#[derive(Clone, Copy, Debug, PartialEq, Eq, Structural)]
pub enum AlterAccessPolicyCommandsList {
    AlterAccessPolicyCommand,
    AlterAccessPolicyCommandsList_Semicolons_AlterAccessPolicyCommand,
}

#[derive(Clone, Copy, Debug, PartialEq, Eq, Structural)]
pub enum AlterAccessPolicyStmt {
    ALTER_ACCESS_POLICY_UnqualifiedPointerName_AlterAccessPolicyCommandsBlock,
}

#[derive(Clone, Copy, Debug, PartialEq, Eq, Structural)]
pub enum AlterAliasCommand {
    AlterAnnotationValueStmt,
    CreateAnnotationValueStmt,
    DropAnnotationValueStmt,
    RenameStmt,
    ResetFieldStmt,
    SetFieldStmt,
    UsingStmt,
}

#[derive(Clone, Copy, Debug, PartialEq, Eq, Structural)]
pub enum AlterAliasCommandsBlock {
    AlterAliasCommand,
    LBRACE_AlterAliasCommandsList_OptSemicolons_RBRACE,
    LBRACE_OptSemicolons_RBRACE,
    LBRACE_Semicolons_AlterAliasCommandsList_OptSemicolons_RBRACE,
}

#[derive(Clone, Copy, Debug, PartialEq, Eq, Structural)]
pub enum AlterAliasCommandsList {
    AlterAliasCommand,
    AlterAliasCommandsList_Semicolons_AlterAliasCommand,
}

#[derive(Clone, Copy, Debug, PartialEq, Eq, Structural)]
pub enum AlterAliasStmt {
    ALTER_ALIAS_NodeName_AlterAliasCommandsBlock,
}

#[derive(Clone, Copy, Debug, PartialEq, Eq, Structural)]
pub enum AlterAnnotationCommand {
    AlterAnnotationValueStmt,
    CreateAnnotationValueStmt,
    DropAnnotationValueStmt,
    RenameStmt,
}

#[derive(Clone, Copy, Debug, PartialEq, Eq, Structural)]
pub enum AlterAnnotationCommandsBlock {
    AlterAnnotationCommand,
    LBRACE_AlterAnnotationCommandsList_OptSemicolons_RBRACE,
    LBRACE_OptSemicolons_RBRACE,
    LBRACE_Semicolons_AlterAnnotationCommandsList_OptSemicolons_RBRACE,
}

#[derive(Clone, Copy, Debug, PartialEq, Eq, Structural)]
pub enum AlterAnnotationCommandsList {
    AlterAnnotationCommand,
    AlterAnnotationCommandsList_Semicolons_AlterAnnotationCommand,
}

#[derive(Clone, Copy, Debug, PartialEq, Eq, Structural)]
pub enum AlterAnnotationStmt {
    ALTER_ABSTRACT_ANNOTATION_NodeName_AlterAnnotationCommandsBlock,
}

#[derive(Clone, Copy, Debug, PartialEq, Eq, Structural)]
pub enum AlterAnnotationValueStmt {
    ALTER_ANNOTATION_NodeName_ASSIGN_GenExpr,
    ALTER_ANNOTATION_NodeName_DROP_OWNED,
}

#[derive(Clone, Copy, Debug, PartialEq, Eq, Structural)]
pub enum AlterBranchCommand {
    RenameStmt,
}

#[derive(Clone, Copy, Debug, PartialEq, Eq, Structural)]
pub enum AlterBranchCommandsBlock {
    AlterBranchCommand,
    LBRACE_AlterBranchCommandsList_OptSemicolons_RBRACE,
    LBRACE_OptSemicolons_RBRACE,
    LBRACE_Semicolons_AlterBranchCommandsList_OptSemicolons_RBRACE,
}

#[derive(Clone, Copy, Debug, PartialEq, Eq, Structural)]
pub enum AlterBranchCommandsList {
    AlterBranchCommand,
    AlterBranchCommandsList_Semicolons_AlterBranchCommand,
}

#[derive(Clone, Copy, Debug, PartialEq, Eq, Structural)]
pub enum AlterBranchStmt {
    ALTER_BRANCH_DatabaseName_BranchOptions_AlterBranchCommandsBlock,
}

#[derive(Clone, Copy, Debug, PartialEq, Eq, Structural)]
pub enum AlterCastCommand {
    AlterAnnotationValueStmt,
    CreateAnnotationValueStmt,
    DropAnnotationValueStmt,
    ResetFieldStmt,
    SetFieldStmt,
}

#[derive(Clone, Copy, Debug, PartialEq, Eq, Structural)]
pub enum AlterCastCommandsBlock {
    AlterCastCommand,
    LBRACE_AlterCastCommandsList_OptSemicolons_RBRACE,
    LBRACE_OptSemicolons_RBRACE,
    LBRACE_Semicolons_AlterCastCommandsList_OptSemicolons_RBRACE,
}

#[derive(Clone, Copy, Debug, PartialEq, Eq, Structural)]
pub enum AlterCastCommandsList {
    AlterCastCommand,
    AlterCastCommandsList_Semicolons_AlterCastCommand,
}

#[derive(Clone, Copy, Debug, PartialEq, Eq, Structural)]
pub enum AlterCastStmt {
    ALTER_CAST_FROM_TypeName_TO_TypeName_AlterCastCommandsBlock,
}

#[derive(Clone, Copy, Debug, PartialEq, Eq, Structural)]
pub enum AlterCommand {
    AlterAnnotationValueStmt,
    CreateAnnotationValueStmt,
    DropAnnotationValueStmt,
    RenameStmt,
    ResetFieldStmt,
    SetFieldStmt,
    UsingStmt,
}

#[derive(Clone, Copy, Debug, PartialEq, Eq, Structural)]
pub enum AlterCommandsBlock {
    AlterCommand,
    LBRACE_AlterCommandsList_OptSemicolons_RBRACE,
    LBRACE_OptSemicolons_RBRACE,
    LBRACE_Semicolons_AlterCommandsList_OptSemicolons_RBRACE,
}

#[derive(Clone, Copy, Debug, PartialEq, Eq, Structural)]
pub enum AlterCommandsList {
    AlterCommand,
    AlterCommandsList_Semicolons_AlterCommand,
}

#[derive(Clone, Copy, Debug, PartialEq, Eq, Structural)]
pub enum AlterConcreteConstraintCommand {
    AlterAbstract,
    AlterAnnotationValueStmt,
    AlterOwnedStmt,
    CreateAnnotationValueStmt,
    DropAnnotationValueStmt,
    ResetFieldStmt,
    SetDelegatedStmt,
    SetFieldStmt,
}

#[derive(Clone, Copy, Debug, PartialEq, Eq, Structural)]
pub enum AlterConcreteConstraintCommandsBlock {
    AlterConcreteConstraintCommand,
    LBRACE_AlterConcreteConstraintCommandsList_OptSemicolons_RBRACE,
    LBRACE_OptSemicolons_RBRACE,
    LBRACE_Semicolons_AlterConcreteConstraintCommandsList_OptSemicolons_RBRACE,
}

#[derive(Clone, Copy, Debug, PartialEq, Eq, Structural)]
pub enum AlterConcreteConstraintCommandsList {
    AlterConcreteConstraintCommand,
    AlterConcreteConstraintCommandsList_Semicolons_AlterConcreteConstraintCommand,
}

#[derive(Clone, Copy, Debug, PartialEq, Eq, Structural)]
pub enum AlterConcreteConstraintStmt {
    ALTER_CONSTRAINT_NodeName_OptConcreteConstraintArgList_OptOnExpr_OptExceptExpr_AlterConcreteConstraintCommandsBlock,
}

#[derive(Clone, Copy, Debug, PartialEq, Eq, Structural)]
pub enum AlterConcreteIndexCommand {
    AlterAnnotationValueStmt,
    AlterDeferredStmt,
    AlterOwnedStmt,
    CreateAnnotationValueStmt,
    DropAnnotationValueStmt,
    ResetFieldStmt,
    SetFieldStmt,
}

#[derive(Clone, Copy, Debug, PartialEq, Eq, Structural)]
pub enum AlterConcreteIndexCommandsBlock {
    AlterConcreteIndexCommand,
    LBRACE_AlterConcreteIndexCommandsList_OptSemicolons_RBRACE,
    LBRACE_OptSemicolons_RBRACE,
    LBRACE_Semicolons_AlterConcreteIndexCommandsList_OptSemicolons_RBRACE,
}

#[derive(Clone, Copy, Debug, PartialEq, Eq, Structural)]
pub enum AlterConcreteIndexCommandsList {
    AlterConcreteIndexCommand,
    AlterConcreteIndexCommandsList_Semicolons_AlterConcreteIndexCommand,
}

#[derive(Clone, Copy, Debug, PartialEq, Eq, Structural)]
pub enum AlterConcreteIndexStmt {
    ALTER_INDEX_OnExpr_OptExceptExpr_AlterConcreteIndexCommandsBlock,
    ALTER_INDEX_NodeName_OptIndexExtArgList_OnExpr_OptExceptExpr_AlterConcreteIndexCommandsBlock,
}

#[derive(Clone, Copy, Debug, PartialEq, Eq, Structural)]
pub enum AlterConcreteLinkCommand {
    AlterAnnotationValueStmt,
    AlterConcreteConstraintStmt,
    AlterConcreteIndexStmt,
    AlterConcretePropertyStmt,
    AlterOwnedStmt,
    AlterRewriteStmt,
    AlterSimpleExtending,
    CreateAnnotationValueStmt,
    CreateConcreteConstraintStmt,
    CreateConcreteIndexStmt,
    CreateConcretePropertyStmt,
    CreateRewriteStmt,
    DropAnnotationValueStmt,
    DropConcreteConstraintStmt,
    DropConcreteIndexStmt,
    DropConcretePropertyStmt,
    DropRewriteStmt,
    OnSourceDeleteResetStmt,
    OnSourceDeleteStmt,
    OnTargetDeleteResetStmt,
    OnTargetDeleteStmt,
    RenameStmt,
    ResetFieldStmt,
    SetCardinalityStmt,
    SetFieldStmt,
    SetPointerTypeStmt,
    SetRequiredStmt,
    UsingStmt,
}

#[derive(Clone, Copy, Debug, PartialEq, Eq, Structural)]
pub enum AlterConcreteLinkCommandsBlock {
    AlterConcreteLinkCommand,
    LBRACE_AlterConcreteLinkCommandsList_OptSemicolons_RBRACE,
    LBRACE_OptSemicolons_RBRACE,
    LBRACE_Semicolons_AlterConcreteLinkCommandsList_OptSemicolons_RBRACE,
}

#[derive(Clone, Copy, Debug, PartialEq, Eq, Structural)]
pub enum AlterConcreteLinkCommandsList {
    AlterConcreteLinkCommand,
    AlterConcreteLinkCommandsList_Semicolons_AlterConcreteLinkCommand,
}

#[derive(Clone, Copy, Debug, PartialEq, Eq, Structural)]
pub enum AlterConcreteLinkStmt {
    ALTER_LINK_UnqualifiedPointerName_AlterConcreteLinkCommandsBlock,
}

#[derive(Clone, Copy, Debug, PartialEq, Eq, Structural)]
pub enum AlterConcretePropertyCommand {
    AlterAnnotationValueStmt,
    AlterConcreteConstraintStmt,
    AlterOwnedStmt,
    AlterRewriteStmt,
    AlterSimpleExtending,
    CreateAnnotationValueStmt,
    CreateConcreteConstraintStmt,
    CreateRewriteStmt,
    DropAnnotationValueStmt,
    DropConcreteConstraintStmt,
    DropRewriteStmt,
    RenameStmt,
    ResetFieldStmt,
    SetCardinalityStmt,
    SetFieldStmt,
    SetPointerTypeStmt,
    SetRequiredStmt,
    UsingStmt,
}

#[derive(Clone, Copy, Debug, PartialEq, Eq, Structural)]
pub enum AlterConcretePropertyCommandsBlock {
    AlterConcretePropertyCommand,
    LBRACE_AlterConcretePropertyCommandsList_OptSemicolons_RBRACE,
    LBRACE_OptSemicolons_RBRACE,
    LBRACE_Semicolons_AlterConcretePropertyCommandsList_OptSemicolons_RBRACE,
}

#[derive(Clone, Copy, Debug, PartialEq, Eq, Structural)]
pub enum AlterConcretePropertyCommandsList {
    AlterConcretePropertyCommand,
    AlterConcretePropertyCommandsList_Semicolons_AlterConcretePropertyCommand,
}

#[derive(Clone, Copy, Debug, PartialEq, Eq, Structural)]
pub enum AlterConcretePropertyStmt {
    ALTER_PROPERTY_UnqualifiedPointerName_AlterConcretePropertyCommandsBlock,
}

#[derive(Clone, Copy, Debug, PartialEq, Eq, Structural)]
pub enum AlterConstraintStmt {
    ALTER_ABSTRACT_CONSTRAINT_NodeName_AlterCommandsBlock,
}

#[derive(Clone, Copy, Debug, PartialEq, Eq, Structural)]
pub enum AlterCurrentMigrationStmt {
    ALTER_CURRENT_MIGRATION_REJECT_PROPOSED,
}

#[derive(Clone, Copy, Debug, PartialEq, Eq, Structural)]
pub enum AlterDatabaseCommand {
    RenameStmt,
}

#[derive(Clone, Copy, Debug, PartialEq, Eq, Structural)]
pub enum AlterDatabaseCommandsBlock {
    AlterDatabaseCommand,
    LBRACE_AlterDatabaseCommandsList_OptSemicolons_RBRACE,
    LBRACE_OptSemicolons_RBRACE,
    LBRACE_Semicolons_AlterDatabaseCommandsList_OptSemicolons_RBRACE,
}

#[derive(Clone, Copy, Debug, PartialEq, Eq, Structural)]
pub enum AlterDatabaseCommandsList {
    AlterDatabaseCommand,
    AlterDatabaseCommandsList_Semicolons_AlterDatabaseCommand,
}

#[derive(Clone, Copy, Debug, PartialEq, Eq, Structural)]
pub enum AlterDatabaseStmt {
    ALTER_DATABASE_DatabaseName_AlterDatabaseCommandsBlock,
}

#[derive(Clone, Copy, Debug, PartialEq, Eq, Structural)]
pub enum AlterDeferredStmt {
    DROP_DEFERRED,
    SET_DEFERRED,
}

#[derive(Clone, Copy, Debug, PartialEq, Eq, Structural)]
pub enum AlterExtending {
    AlterAbstract,
    DROP_EXTENDING_TypeNameList,
    EXTENDING_TypeNameList_OptPosition,
}

#[derive(Clone, Copy, Debug, PartialEq, Eq, Structural)]
pub enum AlterExtensionStmt {
    ALTER_EXTENSION_ShortNodeName_TO_ExtensionVersion,
}

#[derive(Clone, Copy, Debug, PartialEq, Eq, Structural)]
pub enum AlterFunctionCommand {
    AlterAnnotationValueStmt,
    CreateAnnotationValueStmt,
    DropAnnotationValueStmt,
    FromFunction,
    RenameStmt,
    ResetFieldStmt,
    SetFieldStmt,
}

#[derive(Clone, Copy, Debug, PartialEq, Eq, Structural)]
pub enum AlterFunctionCommandsBlock {
    AlterFunctionCommand,
    LBRACE_AlterFunctionCommandsList_OptSemicolons_RBRACE,
    LBRACE_OptSemicolons_RBRACE,
    LBRACE_Semicolons_AlterFunctionCommandsList_OptSemicolons_RBRACE,
}

#[derive(Clone, Copy, Debug, PartialEq, Eq, Structural)]
pub enum AlterFunctionCommandsList {
    AlterFunctionCommand,
    AlterFunctionCommandsList_Semicolons_AlterFunctionCommand,
}

#[derive(Clone, Copy, Debug, PartialEq, Eq, Structural)]
pub enum AlterFunctionStmt {
    ALTER_FUNCTION_NodeName_CreateFunctionArgs_AlterFunctionCommandsBlock,
}

#[derive(Clone, Copy, Debug, PartialEq, Eq, Structural)]
pub enum AlterGlobalCommand {
    AlterAnnotationValueStmt,
    CreateAnnotationValueStmt,
    DropAnnotationValueStmt,
    RenameStmt,
    ResetFieldStmt,
    SetCardinalityStmt,
    SetFieldStmt,
    SetGlobalTypeStmt,
    SetRequiredStmt,
    UsingStmt,
}

#[derive(Clone, Copy, Debug, PartialEq, Eq, Structural)]
pub enum AlterGlobalCommandsBlock {
    AlterGlobalCommand,
    LBRACE_AlterGlobalCommandsList_OptSemicolons_RBRACE,
    LBRACE_OptSemicolons_RBRACE,
    LBRACE_Semicolons_AlterGlobalCommandsList_OptSemicolons_RBRACE,
}

#[derive(Clone, Copy, Debug, PartialEq, Eq, Structural)]
pub enum AlterGlobalCommandsList {
    AlterGlobalCommand,
    AlterGlobalCommandsList_Semicolons_AlterGlobalCommand,
}

#[derive(Clone, Copy, Debug, PartialEq, Eq, Structural)]
pub enum AlterGlobalStmt {
    ALTER_GLOBAL_NodeName_AlterGlobalCommandsBlock,
}

#[derive(Clone, Copy, Debug, PartialEq, Eq, Structural)]
pub enum AlterIndexCommand {
    AlterAnnotationValueStmt,
    CreateAnnotationValueStmt,
    DropAnnotationValueStmt,
    RenameStmt,
    ResetFieldStmt,
    SetFieldStmt,
    UsingStmt,
}

#[derive(Clone, Copy, Debug, PartialEq, Eq, Structural)]
pub enum AlterIndexCommandsBlock {
    AlterIndexCommand,
    LBRACE_AlterIndexCommandsList_OptSemicolons_RBRACE,
    LBRACE_OptSemicolons_RBRACE,
    LBRACE_Semicolons_AlterIndexCommandsList_OptSemicolons_RBRACE,
}

#[derive(Clone, Copy, Debug, PartialEq, Eq, Structural)]
pub enum AlterIndexCommandsList {
    AlterIndexCommand,
    AlterIndexCommandsList_Semicolons_AlterIndexCommand,
}

#[derive(Clone, Copy, Debug, PartialEq, Eq, Structural)]
pub enum AlterIndexStmt {
    ALTER_ABSTRACT_INDEX_NodeName_AlterIndexCommandsBlock,
}

#[derive(Clone, Copy, Debug, PartialEq, Eq, Structural)]
pub enum AlterLinkCommand {
    AlterAnnotationValueStmt,
    AlterConcreteConstraintStmt,
    AlterConcreteIndexStmt,
    AlterConcretePropertyStmt,
    AlterRewriteStmt,
    AlterSimpleExtending,
    CreateAnnotationValueStmt,
    CreateConcreteConstraintStmt,
    CreateConcreteIndexStmt,
    CreateConcretePropertyStmt,
    CreateRewriteStmt,
    DropAnnotationValueStmt,
    DropConcreteConstraintStmt,
    DropConcreteIndexStmt,
    DropConcretePropertyStmt,
    DropRewriteStmt,
    RenameStmt,
    ResetFieldStmt,
    SetFieldStmt,
}

#[derive(Clone, Copy, Debug, PartialEq, Eq, Structural)]
pub enum AlterLinkCommandsBlock {
    AlterLinkCommand,
    LBRACE_AlterLinkCommandsList_OptSemicolons_RBRACE,
    LBRACE_OptSemicolons_RBRACE,
    LBRACE_Semicolons_AlterLinkCommandsList_OptSemicolons_RBRACE,
}

#[derive(Clone, Copy, Debug, PartialEq, Eq, Structural)]
pub enum AlterLinkCommandsList {
    AlterLinkCommand,
    AlterLinkCommandsList_Semicolons_AlterLinkCommand,
}

#[derive(Clone, Copy, Debug, PartialEq, Eq, Structural)]
pub enum AlterLinkStmt {
    ALTER_ABSTRACT_LINK_PtrNodeName_AlterLinkCommandsBlock,
}

#[derive(Clone, Copy, Debug, PartialEq, Eq, Structural)]
pub enum AlterMigrationCommand {
    ResetFieldStmt,
    SetFieldStmt,
}

#[derive(Clone, Copy, Debug, PartialEq, Eq, Structural)]
pub enum AlterMigrationCommandsBlock {
    AlterMigrationCommand,
    LBRACE_AlterMigrationCommandsList_OptSemicolons_RBRACE,
    LBRACE_OptSemicolons_RBRACE,
    LBRACE_Semicolons_AlterMigrationCommandsList_OptSemicolons_RBRACE,
}

#[derive(Clone, Copy, Debug, PartialEq, Eq, Structural)]
pub enum AlterMigrationCommandsList {
    AlterMigrationCommand,
    AlterMigrationCommandsList_Semicolons_AlterMigrationCommand,
}

#[derive(Clone, Copy, Debug, PartialEq, Eq, Structural)]
pub enum AlterMigrationStmt {
    ALTER_MIGRATION_NodeName_AlterMigrationCommandsBlock,
}

#[derive(Clone, Copy, Debug, PartialEq, Eq, Structural)]
pub enum AlterModuleStmt {
    ALTER_MODULE_ModuleName_AlterCommandsBlock,
}

#[derive(Clone, Copy, Debug, PartialEq, Eq, Structural)]
pub enum AlterObjectTypeCommand {
    AlterAccessPolicyStmt,
    AlterAnnotationValueStmt,
    AlterConcreteConstraintStmt,
    AlterConcreteIndexStmt,
    AlterConcreteLinkStmt,
    AlterConcretePropertyStmt,
    AlterSimpleExtending,
    AlterTriggerStmt,
    CreateAccessPolicyStmt,
    CreateAnnotationValueStmt,
    CreateConcreteConstraintStmt,
    CreateConcreteIndexStmt,
    CreateConcreteLinkStmt,
    CreateConcretePropertyStmt,
    CreateTriggerStmt,
    DropAccessPolicyStmt,
    DropAnnotationValueStmt,
    DropConcreteConstraintStmt,
    DropConcreteIndexStmt,
    DropConcreteLinkStmt,
    DropConcretePropertyStmt,
    DropTriggerStmt,
    RenameStmt,
    ResetFieldStmt,
    SetFieldStmt,
}

#[derive(Clone, Copy, Debug, PartialEq, Eq, Structural)]
pub enum AlterObjectTypeCommandsBlock {
    AlterObjectTypeCommand,
    LBRACE_AlterObjectTypeCommandsList_OptSemicolons_RBRACE,
    LBRACE_OptSemicolons_RBRACE,
    LBRACE_Semicolons_AlterObjectTypeCommandsList_OptSemicolons_RBRACE,
}

#[derive(Clone, Copy, Debug, PartialEq, Eq, Structural)]
pub enum AlterObjectTypeCommandsList {
    AlterObjectTypeCommand,
    AlterObjectTypeCommandsList_Semicolons_AlterObjectTypeCommand,
}

#[derive(Clone, Copy, Debug, PartialEq, Eq, Structural)]
pub enum AlterObjectTypeStmt {
    ALTER_TYPE_NodeName_AlterObjectTypeCommandsBlock,
}

#[derive(Clone, Copy, Debug, PartialEq, Eq, Structural)]
pub enum AlterOperatorCommand {
    AlterAnnotationValueStmt,
    CreateAnnotationValueStmt,
    DropAnnotationValueStmt,
    ResetFieldStmt,
    SetFieldStmt,
}

#[derive(Clone, Copy, Debug, PartialEq, Eq, Structural)]
pub enum AlterOperatorCommandsBlock {
    AlterOperatorCommand,
    LBRACE_AlterOperatorCommandsList_OptSemicolons_RBRACE,
    LBRACE_OptSemicolons_RBRACE,
    LBRACE_Semicolons_AlterOperatorCommandsList_OptSemicolons_RBRACE,
}

#[derive(Clone, Copy, Debug, PartialEq, Eq, Structural)]
pub enum AlterOperatorCommandsList {
    AlterOperatorCommand,
    AlterOperatorCommandsList_Semicolons_AlterOperatorCommand,
}

#[derive(Clone, Copy, Debug, PartialEq, Eq, Structural)]
pub enum AlterOperatorStmt {
    ALTER_OperatorKind_OPERATOR_NodeName_CreateFunctionArgs_AlterOperatorCommandsBlock,
}

#[derive(Clone, Copy, Debug, PartialEq, Eq, Structural)]
pub enum AlterOwnedStmt {
    DROP_OWNED,
    SET_OWNED,
}

#[derive(Clone, Copy, Debug, PartialEq, Eq, Structural)]
pub enum AlterPermissionCommand {
    AlterAnnotationValueStmt,
    CreateAnnotationValueStmt,
    DropAnnotationValueStmt,
    RenameStmt,
}

#[derive(Clone, Copy, Debug, PartialEq, Eq, Structural)]
pub enum AlterPermissionCommandsBlock {
    AlterPermissionCommand,
    LBRACE_AlterPermissionCommandsList_OptSemicolons_RBRACE,
    LBRACE_OptSemicolons_RBRACE,
    LBRACE_Semicolons_AlterPermissionCommandsList_OptSemicolons_RBRACE,
}

#[derive(Clone, Copy, Debug, PartialEq, Eq, Structural)]
pub enum AlterPermissionCommandsList {
    AlterPermissionCommand,
    AlterPermissionCommandsList_Semicolons_AlterPermissionCommand,
}

#[derive(Clone, Copy, Debug, PartialEq, Eq, Structural)]
pub enum AlterPermissionStmt {
    ALTER_PERMISSION_NodeName_AlterPermissionCommandsBlock,
}

#[derive(Clone, Copy, Debug, PartialEq, Eq, Structural)]
pub enum AlterPropertyCommand {
    AlterAnnotationValueStmt,
    AlterRewriteStmt,
    CreateAnnotationValueStmt,
    CreateRewriteStmt,
    DropAnnotationValueStmt,
    DropRewriteStmt,
    RenameStmt,
    ResetFieldStmt,
    SetFieldStmt,
}

#[derive(Clone, Copy, Debug, PartialEq, Eq, Structural)]
pub enum AlterPropertyCommandsBlock {
    AlterPropertyCommand,
    LBRACE_AlterPropertyCommandsList_OptSemicolons_RBRACE,
    LBRACE_OptSemicolons_RBRACE,
    LBRACE_Semicolons_AlterPropertyCommandsList_OptSemicolons_RBRACE,
}

#[derive(Clone, Copy, Debug, PartialEq, Eq, Structural)]
pub enum AlterPropertyCommandsList {
    AlterPropertyCommand,
    AlterPropertyCommandsList_Semicolons_AlterPropertyCommand,
}

#[derive(Clone, Copy, Debug, PartialEq, Eq, Structural)]
pub enum AlterPropertyStmt {
    ALTER_ABSTRACT_PROPERTY_PtrNodeName_AlterPropertyCommandsBlock,
}

#[derive(Clone, Copy, Debug, PartialEq, Eq, Structural)]
pub enum AlterRewriteCommand {
    AlterAnnotationValueStmt,
    CreateAnnotationValueStmt,
    DropAnnotationValueStmt,
    ResetFieldStmt,
    SetFieldStmt,
    UsingStmt,
}

#[derive(Clone, Copy, Debug, PartialEq, Eq, Structural)]
pub enum AlterRewriteCommandsBlock {
    AlterRewriteCommand,
    LBRACE_AlterRewriteCommandsList_OptSemicolons_RBRACE,
    LBRACE_OptSemicolons_RBRACE,
    LBRACE_Semicolons_AlterRewriteCommandsList_OptSemicolons_RBRACE,
}

#[derive(Clone, Copy, Debug, PartialEq, Eq, Structural)]
pub enum AlterRewriteCommandsList {
    AlterRewriteCommand,
    AlterRewriteCommandsList_Semicolons_AlterRewriteCommand,
}

#[derive(Clone, Copy, Debug, PartialEq, Eq, Structural)]
pub enum AlterRewriteStmt {
    ALTER_REWRITE_RewriteKindList_AlterRewriteCommandsBlock,
}

#[derive(Clone, Copy, Debug, PartialEq, Eq, Structural)]
pub enum AlterRoleCommand {
    AlterRoleExtending,
    RenameStmt,
    ResetFieldStmt,
    SetFieldStmt,
}

#[derive(Clone, Copy, Debug, PartialEq, Eq, Structural)]
pub enum AlterRoleCommandsBlock {
    AlterRoleCommand,
    LBRACE_AlterRoleCommandsList_OptSemicolons_RBRACE,
    LBRACE_OptSemicolons_RBRACE,
    LBRACE_Semicolons_AlterRoleCommandsList_OptSemicolons_RBRACE,
}

#[derive(Clone, Copy, Debug, PartialEq, Eq, Structural)]
pub enum AlterRoleCommandsList {
    AlterRoleCommand,
    AlterRoleCommandsList_Semicolons_AlterRoleCommand,
}

#[derive(Clone, Copy, Debug, PartialEq, Eq, Structural)]
pub enum AlterRoleExtending {
    DROP_EXTENDING_ShortTypeNameList,
    EXTENDING_ShortTypeNameList_OptPosition,
}

#[derive(Clone, Copy, Debug, PartialEq, Eq, Structural)]
pub enum AlterRoleStmt {
    ALTER_ROLE_ShortNodeName_AlterRoleCommandsBlock,
}

#[derive(Clone, Copy, Debug, PartialEq, Eq, Structural)]
pub enum AlterScalarTypeCommand {
    AlterAnnotationValueStmt,
    AlterConcreteConstraintStmt,
    AlterExtending,
    CreateAnnotationValueStmt,
    CreateConcreteConstraintStmt,
    DropAnnotationValueStmt,
    DropConcreteConstraintStmt,
    RenameStmt,
    ResetFieldStmt,
    SetFieldStmt,
}

#[derive(Clone, Copy, Debug, PartialEq, Eq, Structural)]
pub enum AlterScalarTypeCommandsBlock {
    AlterScalarTypeCommand,
    LBRACE_AlterScalarTypeCommandsList_OptSemicolons_RBRACE,
    LBRACE_OptSemicolons_RBRACE,
    LBRACE_Semicolons_AlterScalarTypeCommandsList_OptSemicolons_RBRACE,
}

#[derive(Clone, Copy, Debug, PartialEq, Eq, Structural)]
pub enum AlterScalarTypeCommandsList {
    AlterScalarTypeCommand,
    AlterScalarTypeCommandsList_Semicolons_AlterScalarTypeCommand,
}

#[derive(Clone, Copy, Debug, PartialEq, Eq, Structural)]
pub enum AlterScalarTypeStmt {
    ALTER_SCALAR_TYPE_NodeName_AlterScalarTypeCommandsBlock,
}

#[derive(Clone, Copy, Debug, PartialEq, Eq, Structural)]
pub enum AlterSimpleExtending {
    AlterAbstract,
    DROP_EXTENDING_SimpleTypeNameList,
    EXTENDING_SimpleTypeNameList_OptPosition,
}

#[derive(Clone, Copy, Debug, PartialEq, Eq, Structural)]
pub enum AlterTriggerCommand {
    AccessWhenStmt,
    AlterAnnotationValueStmt,
    CreateAnnotationValueStmt,
    DropAnnotationValueStmt,
    RenameStmt,
    ResetFieldStmt,
    SetFieldStmt,
    UsingStmt,
}

#[derive(Clone, Copy, Debug, PartialEq, Eq, Structural)]
pub enum AlterTriggerCommandsBlock {
    AlterTriggerCommand,
    LBRACE_AlterTriggerCommandsList_OptSemicolons_RBRACE,
    LBRACE_OptSemicolons_RBRACE,
    LBRACE_Semicolons_AlterTriggerCommandsList_OptSemicolons_RBRACE,
}

#[derive(Clone, Copy, Debug, PartialEq, Eq, Structural)]
pub enum AlterTriggerCommandsList {
    AlterTriggerCommand,
    AlterTriggerCommandsList_Semicolons_AlterTriggerCommand,
}

#[derive(Clone, Copy, Debug, PartialEq, Eq, Structural)]
pub enum AlterTriggerStmt {
    ALTER_TRIGGER_UnqualifiedPointerName_AlterTriggerCommandsBlock,
}

#[derive(Clone, Copy, Debug, PartialEq, Eq, Structural)]
pub enum AnalyzeStmt {
    ANALYZE_ExprStmt,
    ANALYZE_NamedTuple_ExprStmt,
}

#[derive(Clone, Copy, Debug, PartialEq, Eq, Structural)]
pub enum AnnotationDeclaration {
    ABSTRACT_ANNOTATION_NodeName_OptExtendingSimple_CreateSDLCommandsBlock,
    ABSTRACT_INHERITABLE_ANNOTATION_NodeName_OptExtendingSimple_CreateSDLCommandsBlock,
}

#[derive(Clone, Copy, Debug, PartialEq, Eq, Structural)]
pub enum AnnotationDeclarationShort {
    ABSTRACT_ANNOTATION_NodeName_OptExtendingSimple,
    ABSTRACT_INHERITABLE_ANNOTATION_NodeName_OptExtendingSimple,
}

#[derive(Clone, Copy, Debug, PartialEq, Eq, Structural)]
pub enum AnnoyingFor {
    FOR_OptionalOptional_Identifier_IN_AtomicExpr_ExprStmtAnnoying,
}

#[derive(Clone, Copy, Debug, PartialEq, Eq, Structural)]
pub enum AnyIdentifier {
    PtrIdentifier,
    ReservedKeyword,
}

#[derive(Clone, Copy, Debug, PartialEq, Eq, Structural)]
pub enum AnyNodeName {
    AnyIdentifier,
}

#[derive(Clone, Copy, Debug, PartialEq, Eq, Structural)]
pub enum AtomicExpr {
    AtomicPath,
    BaseAtomicExpr,
    LANGBRACKET_FullTypeExpr_RANGBRACKET_AtomicExpr_P_TYPECAST,
}

#[derive(Clone, Copy, Debug, PartialEq, Eq, Structural)]
pub enum AtomicPath {
    AtomicExpr_PathStep_P_DOT,
}

#[derive(Clone, Copy, Debug, PartialEq, Eq, Structural)]
pub enum BaseAtomicExpr {
    Collection,
    Constant,
    DUNDERDEFAULT,
    DUNDERNEW,
    DUNDEROLD,
    DUNDERSOURCE,
    DUNDERSPECIFIED,
    DUNDERSUBJECT,
    FreeShape,
    FuncExpr,
    NamedTuple,
    NodeName_P_DOT,
    ParenExpr_P_UMINUS,
    PathStep_P_DOT,
    SetLiteral,
    StringInterpolation,
    Tuple,
}

#[derive(Clone, Copy, Debug, PartialEq, Eq, Structural)]
pub enum BaseBooleanConstant {
    FALSE,
    TRUE,
}

#[derive(Clone, Copy, Debug, PartialEq, Eq, Structural)]
pub enum BaseBytesConstant {
    BCONST,
}

#[derive(Clone, Copy, Debug, PartialEq, Eq, Structural)]
pub enum BaseName {
    Identifier,
    QualifiedName,
}

#[derive(Clone, Copy, Debug, PartialEq, Eq, Structural)]
pub enum BaseNumberConstant {
    FCONST,
    ICONST,
    NFCONST,
    NICONST,
}

#[derive(Clone, Copy, Debug, PartialEq, Eq, Structural)]
pub enum BaseStringConstant {
    SCONST,
}

#[derive(Clone, Copy, Debug, PartialEq, Eq, Structural)]
pub enum BranchOptions {
    FORCE,
    epsilon,
}

#[derive(Clone, Copy, Debug, PartialEq, Eq, Structural)]
pub enum BranchStmt {
    AlterBranchStmt,
    CreateBranchStmt,
    DropBranchStmt,
}

#[derive(Clone, Copy, Debug, PartialEq, Eq, Structural)]
pub enum ByClause {
    BY_GroupingElementList,
}

#[derive(Clone, Copy, Debug, PartialEq, Eq, Structural)]
pub enum CastAllowedUse {
    ALLOW_ASSIGNMENT,
    ALLOW_IMPLICIT,
}

#[derive(Clone, Copy, Debug, PartialEq, Eq, Structural)]
pub enum CastCode {
    USING_Identifier_BaseStringConstant,
    USING_Identifier_CAST,
    USING_Identifier_EXPRESSION,
    USING_Identifier_FUNCTION_BaseStringConstant,
}

#[derive(Clone, Copy, Debug, PartialEq, Eq, Structural)]
pub enum Collection {
    LBRACKET_OptExprList_RBRACKET,
}

#[derive(Clone, Copy, Debug, PartialEq, Eq, Structural)]
pub enum CollectionTypeName {
    NodeName_LANGBRACKET_RANGBRACKET,
    NodeName_LANGBRACKET_SubtypeList_RANGBRACKET,
}

#[derive(Clone, Copy, Debug, PartialEq, Eq, Structural)]
pub enum ColonedIdents {
    AnyIdentifier,
    ColonedIdents_DOUBLECOLON_AnyIdentifier,
}

#[derive(Clone, Copy, Debug, PartialEq, Eq, Structural)]
pub enum CommitMigrationStmt {
    COMMIT_MIGRATION,
    COMMIT_MIGRATION_REWRITE,
}

#[derive(Clone, Copy, Debug, PartialEq, Eq, Structural)]
pub enum CompareOp {
    DISTINCTFROM_P_COMPARE_OP,
    EQUALS_P_COMPARE_OP,
    GREATEREQ_P_COMPARE_OP,
    LANGBRACKET_P_COMPARE_OP,
    LESSEQ_P_COMPARE_OP,
    NOTDISTINCTFROM_P_COMPARE_OP,
    NOTEQ_P_COMPARE_OP,
    RANGBRACKET_P_COMPARE_OP,
}

#[derive(Clone, Copy, Debug, PartialEq, Eq, Structural)]
pub enum ComputableShapePointer {
    MULTI_SimpleShapePointer_ASSIGN_GenExpr,
    OPTIONAL_MULTI_SimpleShapePointer_ASSIGN_GenExpr,
    OPTIONAL_SINGLE_SimpleShapePointer_ASSIGN_GenExpr,
    OPTIONAL_SimpleShapePointer_ASSIGN_GenExpr,
    REQUIRED_MULTI_SimpleShapePointer_ASSIGN_GenExpr,
    REQUIRED_SINGLE_SimpleShapePointer_ASSIGN_GenExpr,
    REQUIRED_SimpleShapePointer_ASSIGN_GenExpr,
    SINGLE_SimpleShapePointer_ASSIGN_GenExpr,
    SimpleShapePointer_ADDASSIGN_GenExpr,
    SimpleShapePointer_ASSIGN_GenExpr,
    SimpleShapePointer_REMASSIGN_GenExpr,
}

#[derive(Clone, Copy, Debug, PartialEq, Eq, Structural)]
pub enum ConcreteConstraintBlock {
    CONSTRAINT_NodeName_OptConcreteConstraintArgList_OptOnExpr_OptExceptExpr_CreateSDLCommandsBlock,
    DELEGATED_CONSTRAINT_NodeName_OptConcreteConstraintArgList_OptOnExpr_OptExceptExpr_CreateSDLCommandsBlock,
}

#[derive(Clone, Copy, Debug, PartialEq, Eq, Structural)]
pub enum ConcreteConstraintShort {
    CONSTRAINT_NodeName_OptConcreteConstraintArgList_OptOnExpr_OptExceptExpr,
    DELEGATED_CONSTRAINT_NodeName_OptConcreteConstraintArgList_OptOnExpr_OptExceptExpr,
}

#[derive(Clone, Copy, Debug, PartialEq, Eq, Structural)]
pub enum ConcreteIndexDeclarationBlock {
    DEFERRED_INDEX_OnExpr_OptExceptExpr_CreateConcreteIndexSDLCommandsBlock,
    INDEX_OnExpr_OptExceptExpr_CreateConcreteIndexSDLCommandsBlock,
    DEFERRED_INDEX_NodeName_OnExpr_OptExceptExpr_CreateConcreteIndexSDLCommandsBlock,
    DEFERRED_INDEX_NodeName_IndexExtArgList_OnExpr_OptExceptExpr_CreateConcreteIndexSDLCommandsBlock,
    INDEX_NodeName_OnExpr_OptExceptExpr_CreateConcreteIndexSDLCommandsBlock,
    INDEX_NodeName_IndexExtArgList_OnExpr_OptExceptExpr_CreateConcreteIndexSDLCommandsBlock,
}

#[derive(Clone, Copy, Debug, PartialEq, Eq, Structural)]
pub enum ConcreteIndexDeclarationShort {
    DEFERRED_INDEX_NodeName_OnExpr_OptExceptExpr,
    DEFERRED_INDEX_NodeName_IndexExtArgList_OnExpr_OptExceptExpr,
    INDEX_NodeName_OnExpr_OptExceptExpr,
    INDEX_NodeName_IndexExtArgList_OnExpr_OptExceptExpr,
    DEFERRED_INDEX_OnExpr_OptExceptExpr,
    INDEX_OnExpr_OptExceptExpr,
}

#[derive(Clone, Copy, Debug, PartialEq, Eq, Structural)]
pub enum ConcreteLinkBlock {
    OVERLOADED_LINK_PathNodeName_OptExtendingSimple_OptPtrTarget_CreateConcreteLinkSDLCommandsBlock,
    OVERLOADED_PtrQuals_LINK_PathNodeName_OptExtendingSimple_OptPtrTarget_CreateConcreteLinkSDLCommandsBlock,
    LINK_PathNodeName_OptExtendingSimple_OptPtrTarget_CreateConcreteLinkSDLCommandsBlock,
    PtrQuals_LINK_PathNodeName_OptExtendingSimple_OptPtrTarget_CreateConcreteLinkSDLCommandsBlock,
}

#[derive(Clone, Copy, Debug, PartialEq, Eq, Structural)]
pub enum ConcreteLinkShort {
    LINK_PathNodeName_ASSIGN_GenExpr,
    OVERLOADED_LINK_PathNodeName_OptExtendingSimple_OptPtrTarget,
    OVERLOADED_PtrQuals_LINK_PathNodeName_OptExtendingSimple_OptPtrTarget,
    PtrQuals_LINK_PathNodeName_ASSIGN_GenExpr,
    LINK_PathNodeName_OptExtendingSimple_PtrTarget,
    PtrQuals_LINK_PathNodeName_OptExtendingSimple_PtrTarget,
}

#[derive(Clone, Copy, Debug, PartialEq, Eq, Structural)]
pub enum ConcretePropertyBlock {
    OVERLOADED_PROPERTY_PathNodeName_OptExtendingSimple_OptPtrTarget_CreateConcretePropertySDLCommandsBlock,
    OVERLOADED_PtrQuals_PROPERTY_PathNodeName_OptExtendingSimple_OptPtrTarget_CreateConcretePropertySDLCommandsBlock,
    PROPERTY_PathNodeName_OptExtendingSimple_OptPtrTarget_CreateConcretePropertySDLCommandsBlock,
    PtrQuals_PROPERTY_PathNodeName_OptExtendingSimple_OptPtrTarget_CreateConcretePropertySDLCommandsBlock,
}

#[derive(Clone, Copy, Debug, PartialEq, Eq, Structural)]
pub enum ConcretePropertyShort {
    PROPERTY_PathNodeName_ASSIGN_GenExpr,
    OVERLOADED_PROPERTY_PathNodeName_OptExtendingSimple_OptPtrTarget,
    OVERLOADED_PtrQuals_PROPERTY_PathNodeName_OptExtendingSimple_OptPtrTarget,
    PtrQuals_PROPERTY_PathNodeName_ASSIGN_GenExpr,
    PROPERTY_PathNodeName_OptExtendingSimple_PtrTarget,
    PtrQuals_PROPERTY_PathNodeName_OptExtendingSimple_PtrTarget,
}

#[derive(Clone, Copy, Debug, PartialEq, Eq, Structural)]
pub enum ConcreteUnknownPointerBlock {
    OVERLOADED_PathNodeName_OptExtendingSimple_OptPtrTarget_CreateConcreteLinkSDLCommandsBlock,
    OVERLOADED_PtrQuals_PathNodeName_OptExtendingSimple_OptPtrTarget_CreateConcreteLinkSDLCommandsBlock,
    PathNodeName_OptExtendingSimple_OptPtrTarget_CreateConcreteLinkSDLCommandsBlock,
    PtrQuals_PathNodeName_OptExtendingSimple_OptPtrTarget_CreateConcreteLinkSDLCommandsBlock,
}

#[derive(Clone, Copy, Debug, PartialEq, Eq, Structural)]
pub enum ConcreteUnknownPointerObjectShort {
    PathNodeName_ASSIGN_GenExpr,
    PtrQuals_PathNodeName_ASSIGN_GenExpr,
}

#[derive(Clone, Copy, Debug, PartialEq, Eq, Structural)]
pub enum ConcreteUnknownPointerShort {
    OVERLOADED_PathNodeName_OptExtendingSimple_OptPtrTarget,
    OVERLOADED_PtrQuals_PathNodeName_OptExtendingSimple_OptPtrTarget,
    PathNodeName_OptExtendingSimple_PtrTarget,
    PtrQuals_PathNodeName_OptExtendingSimple_PtrTarget,
}

#[derive(Clone, Copy, Debug, PartialEq, Eq, Structural)]
pub enum ConfigOp {
    INSERT_NodeName_Shape,
    RESET_NodeName_OptFilterClause,
    SET_NodeName_ASSIGN_Expr,
}

#[derive(Clone, Copy, Debug, PartialEq, Eq, Structural)]
pub enum ConfigScope {
    CURRENT_BRANCH,
    CURRENT_DATABASE,
    INSTANCE,
    SESSION,
    SYSTEM,
}

#[derive(Clone, Copy, Debug, PartialEq, Eq, Structural)]
pub enum ConfigStmt {
    CONFIGURE_BRANCH_ConfigOp,
    CONFIGURE_ConfigScope_ConfigOp,
    CONFIGURE_DATABASE_ConfigOp,
    RESET_GLOBAL_NodeName,
    SET_GLOBAL_NodeName_ASSIGN_Expr,
}

#[derive(Clone, Copy, Debug, PartialEq, Eq, Structural)]
pub enum Constant {
    BaseBooleanConstant,
    BaseBytesConstant,
    BaseNumberConstant,
    BaseStringConstant,
    PARAMETER,
    PARAMETERANDTYPE,
}

#[derive(Clone, Copy, Debug, PartialEq, Eq, Structural)]
pub enum ConstraintDeclaration {
    ABSTRACT_CONSTRAINT_NodeName_OptOnExpr_OptExtendingSimple_CreateSDLCommandsBlock,
    ABSTRACT_CONSTRAINT_NodeName_CreateFunctionArgs_OptOnExpr_OptExtendingSimple_CreateSDLCommandsBlock,
}

#[derive(Clone, Copy, Debug, PartialEq, Eq, Structural)]
pub enum ConstraintDeclarationShort {
    ABSTRACT_CONSTRAINT_NodeName_OptOnExpr_OptExtendingSimple,
    ABSTRACT_CONSTRAINT_NodeName_CreateFunctionArgs_OptOnExpr_OptExtendingSimple,
}

#[derive(Clone, Copy, Debug, PartialEq, Eq, Structural)]
pub enum CreateAccessPolicyCommand {
    CreateAnnotationValueStmt,
    SetFieldStmt,
}

#[derive(Clone, Copy, Debug, PartialEq, Eq, Structural)]
pub enum CreateAccessPolicyCommandsBlock {
    LBRACE_CreateAccessPolicyCommandsList_OptSemicolons_RBRACE,
    LBRACE_OptSemicolons_RBRACE,
    LBRACE_Semicolons_CreateAccessPolicyCommandsList_OptSemicolons_RBRACE,
}

#[derive(Clone, Copy, Debug, PartialEq, Eq, Structural)]
pub enum CreateAccessPolicyCommandsList {
    CreateAccessPolicyCommand,
    CreateAccessPolicyCommandsList_Semicolons_CreateAccessPolicyCommand,
}

#[derive(Clone, Copy, Debug, PartialEq, Eq, Structural)]
pub enum CreateAccessPolicySDLCommandFull {
    CreateAccessPolicySDLCommandShort_SEMICOLON,
}

#[derive(Clone, Copy, Debug, PartialEq, Eq, Structural)]
pub enum CreateAccessPolicySDLCommandShort {
    SetAnnotation,
    SetField,
}

#[derive(Clone, Copy, Debug, PartialEq, Eq, Structural)]
pub enum CreateAccessPolicySDLCommandsBlock {
    LBRACE_OptSemicolons_CreateAccessPolicySDLCommandShort_RBRACE,
    LBRACE_OptSemicolons_CreateAccessPolicySDLCommandsList_OptSemicolons_CreateAccessPolicySDLCommandShort_RBRACE,
    LBRACE_OptSemicolons_CreateAccessPolicySDLCommandsList_OptSemicolons_RBRACE,
    LBRACE_OptSemicolons_RBRACE,
}

#[derive(Clone, Copy, Debug, PartialEq, Eq, Structural)]
pub enum CreateAccessPolicySDLCommandsList {
    CreateAccessPolicySDLCommandFull,
    CreateAccessPolicySDLCommandsList_OptSemicolons_CreateAccessPolicySDLCommandFull,
}

#[derive(Clone, Copy, Debug, PartialEq, Eq, Structural)]
pub enum CreateAccessPolicyStmt {
    CREATE_ACCESS_POLICY_UnqualifiedPointerName_OptWhenBlock_AccessPolicyAction_AccessKindList_OptUsingBlock_OptCreateAccessPolicyCommandsBlock,
}

#[derive(Clone, Copy, Debug, PartialEq, Eq, Structural)]
pub enum CreateAliasCommand {
    AlterAnnotationValueStmt,
    CreateAnnotationValueStmt,
    SetFieldStmt,
    UsingStmt,
}

#[derive(Clone, Copy, Debug, PartialEq, Eq, Structural)]
pub enum CreateAliasCommandsBlock {
    CreateAliasCommand,
    LBRACE_CreateAliasCommandsList_OptSemicolons_RBRACE,
    LBRACE_OptSemicolons_RBRACE,
    LBRACE_Semicolons_CreateAliasCommandsList_OptSemicolons_RBRACE,
}

#[derive(Clone, Copy, Debug, PartialEq, Eq, Structural)]
pub enum CreateAliasCommandsList {
    CreateAliasCommand,
    CreateAliasCommandsList_Semicolons_CreateAliasCommand,
}

#[derive(Clone, Copy, Debug, PartialEq, Eq, Structural)]
pub enum CreateAliasSDLCommandFull {
    CreateAliasSDLCommandShort_SEMICOLON,
}

#[derive(Clone, Copy, Debug, PartialEq, Eq, Structural)]
pub enum CreateAliasSDLCommandShort {
    SetAnnotation,
    SetField,
    Using,
}

#[derive(Clone, Copy, Debug, PartialEq, Eq, Structural)]
pub enum CreateAliasSDLCommandsBlock {
    LBRACE_OptSemicolons_CreateAliasSDLCommandShort_RBRACE,
    LBRACE_OptSemicolons_CreateAliasSDLCommandsList_OptSemicolons_CreateAliasSDLCommandShort_RBRACE,
    LBRACE_OptSemicolons_CreateAliasSDLCommandsList_OptSemicolons_RBRACE,
    LBRACE_OptSemicolons_RBRACE,
}

#[derive(Clone, Copy, Debug, PartialEq, Eq, Structural)]
pub enum CreateAliasSDLCommandsList {
    CreateAliasSDLCommandFull,
    CreateAliasSDLCommandsList_OptSemicolons_CreateAliasSDLCommandFull,
}

#[derive(Clone, Copy, Debug, PartialEq, Eq, Structural)]
pub enum CreateAliasSingleSDLCommandBlock {
    CreateAliasSDLCommandShort,
}

#[derive(Clone, Copy, Debug, PartialEq, Eq, Structural)]
pub enum CreateAliasStmt {
    CREATE_ALIAS_NodeName_CreateAliasCommandsBlock,
    CREATE_ALIAS_NodeName_ASSIGN_GenExpr,
}

#[derive(Clone, Copy, Debug, PartialEq, Eq, Structural)]
pub enum CreateAnnotationCommand {
    CreateAnnotationValueStmt,
}

#[derive(Clone, Copy, Debug, PartialEq, Eq, Structural)]
pub enum CreateAnnotationCommandsBlock {
    LBRACE_CreateAnnotationCommandsList_OptSemicolons_RBRACE,
    LBRACE_OptSemicolons_RBRACE,
    LBRACE_Semicolons_CreateAnnotationCommandsList_OptSemicolons_RBRACE,
}

#[derive(Clone, Copy, Debug, PartialEq, Eq, Structural)]
pub enum CreateAnnotationCommandsList {
    CreateAnnotationCommand,
    CreateAnnotationCommandsList_Semicolons_CreateAnnotationCommand,
}

#[derive(Clone, Copy, Debug, PartialEq, Eq, Structural)]
pub enum CreateAnnotationStmt {
    CREATE_ABSTRACT_ANNOTATION_NodeName_OptCreateAnnotationCommandsBlock,
    CREATE_ABSTRACT_INHERITABLE_ANNOTATION_NodeName_OptCreateCommandsBlock,
}

#[derive(Clone, Copy, Debug, PartialEq, Eq, Structural)]
pub enum CreateAnnotationValueStmt {
    CREATE_ANNOTATION_NodeName_ASSIGN_GenExpr,
}

#[derive(Clone, Copy, Debug, PartialEq, Eq, Structural)]
pub enum CreateBranchStmt {
    CREATE_EMPTY_BRANCH_DatabaseName,
    CREATE_DATA_BRANCH_DatabaseName_FROM_DatabaseName,
    CREATE_SCHEMA_BRANCH_DatabaseName_FROM_DatabaseName,
    CREATE_TEMPLATE_BRANCH_DatabaseName_FROM_DatabaseName,
}

#[derive(Clone, Copy, Debug, PartialEq, Eq, Structural)]
pub enum CreateCastCommand {
    AlterAnnotationValueStmt,
    CastAllowedUse,
    CastCode,
    CreateAnnotationValueStmt,
    SetFieldStmt,
}

#[derive(Clone, Copy, Debug, PartialEq, Eq, Structural)]
pub enum CreateCastCommandsBlock {
    CreateCastCommand,
    LBRACE_CreateCastCommandsList_OptSemicolons_RBRACE,
    LBRACE_OptSemicolons_RBRACE,
    LBRACE_Semicolons_CreateCastCommandsList_OptSemicolons_RBRACE,
}

#[derive(Clone, Copy, Debug, PartialEq, Eq, Structural)]
pub enum CreateCastCommandsList {
    CreateCastCommand,
    CreateCastCommandsList_Semicolons_CreateCastCommand,
}

#[derive(Clone, Copy, Debug, PartialEq, Eq, Structural)]
pub enum CreateCastStmt {
    CREATE_CAST_FROM_TypeName_TO_TypeName_CreateCastCommandsBlock,
}

#[derive(Clone, Copy, Debug, PartialEq, Eq, Structural)]
pub enum CreateCommand {
    AlterAnnotationValueStmt,
    CreateAnnotationValueStmt,
    SetFieldStmt,
    UsingStmt,
}

#[derive(Clone, Copy, Debug, PartialEq, Eq, Structural)]
pub enum CreateCommandsBlock {
    LBRACE_CreateCommandsList_OptSemicolons_RBRACE,
    LBRACE_OptSemicolons_RBRACE,
    LBRACE_Semicolons_CreateCommandsList_OptSemicolons_RBRACE,
}

#[derive(Clone, Copy, Debug, PartialEq, Eq, Structural)]
pub enum CreateCommandsList {
    CreateCommand,
    CreateCommandsList_Semicolons_CreateCommand,
}

#[derive(Clone, Copy, Debug, PartialEq, Eq, Structural)]
pub enum CreateConcreteConstraintStmt {
    CREATE_OptDelegated_CONSTRAINT_NodeName_OptConcreteConstraintArgList_OptOnExpr_OptExceptExpr_OptCreateCommandsBlock,
}

#[derive(Clone, Copy, Debug, PartialEq, Eq, Structural)]
pub enum CreateConcreteIndexSDLCommandFull {
    CreateConcreteIndexSDLCommandShort_SEMICOLON,
}

#[derive(Clone, Copy, Debug, PartialEq, Eq, Structural)]
pub enum CreateConcreteIndexSDLCommandShort {
    SetAnnotation,
    SetField,
}

#[derive(Clone, Copy, Debug, PartialEq, Eq, Structural)]
pub enum CreateConcreteIndexSDLCommandsBlock {
    LBRACE_OptSemicolons_CreateConcreteIndexSDLCommandShort_RBRACE,
    LBRACE_OptSemicolons_CreateConcreteIndexSDLCommandsList_OptSemicolons_CreateConcreteIndexSDLCommandShort_RBRACE,
    LBRACE_OptSemicolons_CreateConcreteIndexSDLCommandsList_OptSemicolons_RBRACE,
    LBRACE_OptSemicolons_RBRACE,
}

#[derive(Clone, Copy, Debug, PartialEq, Eq, Structural)]
pub enum CreateConcreteIndexSDLCommandsList {
    CreateConcreteIndexSDLCommandFull,
    CreateConcreteIndexSDLCommandsList_OptSemicolons_CreateConcreteIndexSDLCommandFull,
}

#[derive(Clone, Copy, Debug, PartialEq, Eq, Structural)]
pub enum CreateConcreteIndexStmt {
    CREATE_OptDeferred_INDEX_OnExpr_OptExceptExpr_OptCreateCommandsBlock,
    CREATE_OptDeferred_INDEX_NodeName_OptIndexExtArgList_OnExpr_OptExceptExpr_OptCreateCommandsBlock,
}

#[derive(Clone, Copy, Debug, PartialEq, Eq, Structural)]
pub enum CreateConcreteLinkCommand {
    AlterAnnotationValueStmt,
    CreateAnnotationValueStmt,
    CreateConcreteConstraintStmt,
    CreateConcreteIndexStmt,
    CreateConcretePropertyStmt,
    CreateRewriteStmt,
    CreateSimpleExtending,
    OnSourceDeleteStmt,
    OnTargetDeleteStmt,
    SetFieldStmt,
    SetRequiredInCreateStmt,
    UsingStmt,
}

#[derive(Clone, Copy, Debug, PartialEq, Eq, Structural)]
pub enum CreateConcreteLinkCommandsBlock {
    LBRACE_CreateConcreteLinkCommandsList_OptSemicolons_RBRACE,
    LBRACE_OptSemicolons_RBRACE,
    LBRACE_Semicolons_CreateConcreteLinkCommandsList_OptSemicolons_RBRACE,
}

#[derive(Clone, Copy, Debug, PartialEq, Eq, Structural)]
pub enum CreateConcreteLinkCommandsList {
    CreateConcreteLinkCommand,
    CreateConcreteLinkCommandsList_Semicolons_CreateConcreteLinkCommand,
}

#[derive(Clone, Copy, Debug, PartialEq, Eq, Structural)]
pub enum CreateConcreteLinkSDLCommandBlock {
    ConcreteConstraintBlock,
    ConcreteIndexDeclarationBlock,
    ConcretePropertyBlock,
    ConcreteUnknownPointerBlock,
    RewriteDeclarationBlock,
}

#[derive(Clone, Copy, Debug, PartialEq, Eq, Structural)]
pub enum CreateConcreteLinkSDLCommandFull {
    CreateConcreteLinkSDLCommandBlock,
    CreateConcreteLinkSDLCommandShort_SEMICOLON,
}

#[derive(Clone, Copy, Debug, PartialEq, Eq, Structural)]
pub enum CreateConcreteLinkSDLCommandShort {
    ConcreteConstraintShort,
    ConcreteIndexDeclarationShort,
    ConcretePropertyShort,
    ConcreteUnknownPointerShort,
    CreateSimpleExtending,
    OnSourceDeleteStmt,
    OnTargetDeleteStmt,
    RewriteDeclarationShort,
    SetAnnotation,
    SetField,
    Using,
}

#[derive(Clone, Copy, Debug, PartialEq, Eq, Structural)]
pub enum CreateConcreteLinkSDLCommandsBlock {
    LBRACE_OptSemicolons_CreateConcreteLinkSDLCommandShort_RBRACE,
    LBRACE_OptSemicolons_CreateConcreteLinkSDLCommandsList_OptSemicolons_CreateConcreteLinkSDLCommandShort_RBRACE,
    LBRACE_OptSemicolons_CreateConcreteLinkSDLCommandsList_OptSemicolons_RBRACE,
    LBRACE_OptSemicolons_RBRACE,
}

#[derive(Clone, Copy, Debug, PartialEq, Eq, Structural)]
pub enum CreateConcreteLinkSDLCommandsList {
    CreateConcreteLinkSDLCommandFull,
    CreateConcreteLinkSDLCommandsList_OptSemicolons_CreateConcreteLinkSDLCommandFull,
}

#[derive(Clone, Copy, Debug, PartialEq, Eq, Structural)]
pub enum CreateConcreteLinkStmt {
    CREATE_OptPtrQuals_LINK_UnqualifiedPointerName_ASSIGN_GenExpr,
    CREATE_OptPtrQuals_LINK_UnqualifiedPointerName_OptCreateConcreteLinkCommandsBlock,
    CREATE_OptPtrQuals_LINK_UnqualifiedPointerName_OptExtendingSimple_ARROW_FullTypeExpr_OptCreateConcreteLinkCommandsBlock,
    CREATE_OptPtrQuals_LINK_UnqualifiedPointerName_OptExtendingSimple_COLON_FullTypeExpr_OptCreateConcreteLinkCommandsBlock,
}

#[derive(Clone, Copy, Debug, PartialEq, Eq, Structural)]
pub enum CreateConcretePropertyCommand {
    AlterAnnotationValueStmt,
    CreateAnnotationValueStmt,
    CreateConcreteConstraintStmt,
    CreateRewriteStmt,
    CreateSimpleExtending,
    SetFieldStmt,
    SetRequiredInCreateStmt,
    UsingStmt,
}

#[derive(Clone, Copy, Debug, PartialEq, Eq, Structural)]
pub enum CreateConcretePropertyCommandsBlock {
    LBRACE_CreateConcretePropertyCommandsList_OptSemicolons_RBRACE,
    LBRACE_OptSemicolons_RBRACE,
    LBRACE_Semicolons_CreateConcretePropertyCommandsList_OptSemicolons_RBRACE,
}

#[derive(Clone, Copy, Debug, PartialEq, Eq, Structural)]
pub enum CreateConcretePropertyCommandsList {
    CreateConcretePropertyCommand,
    CreateConcretePropertyCommandsList_Semicolons_CreateConcretePropertyCommand,
}

#[derive(Clone, Copy, Debug, PartialEq, Eq, Structural)]
pub enum CreateConcretePropertySDLCommandBlock {
    ConcreteConstraintBlock,
    RewriteDeclarationBlock,
}

#[derive(Clone, Copy, Debug, PartialEq, Eq, Structural)]
pub enum CreateConcretePropertySDLCommandFull {
    CreateConcretePropertySDLCommandBlock,
    CreateConcretePropertySDLCommandShort_SEMICOLON,
}

#[derive(Clone, Copy, Debug, PartialEq, Eq, Structural)]
pub enum CreateConcretePropertySDLCommandShort {
    ConcreteConstraintShort,
    CreateSimpleExtending,
    RewriteDeclarationShort,
    SetAnnotation,
    SetField,
    Using,
}

#[derive(Clone, Copy, Debug, PartialEq, Eq, Structural)]
pub enum CreateConcretePropertySDLCommandsBlock {
    LBRACE_OptSemicolons_CreateConcretePropertySDLCommandShort_RBRACE,
    LBRACE_OptSemicolons_CreateConcretePropertySDLCommandsList_OptSemicolons_CreateConcretePropertySDLCommandShort_RBRACE,
    LBRACE_OptSemicolons_CreateConcretePropertySDLCommandsList_OptSemicolons_RBRACE,
    LBRACE_OptSemicolons_RBRACE,
}

#[derive(Clone, Copy, Debug, PartialEq, Eq, Structural)]
pub enum CreateConcretePropertySDLCommandsList {
    CreateConcretePropertySDLCommandFull,
    CreateConcretePropertySDLCommandsList_OptSemicolons_CreateConcretePropertySDLCommandFull,
}

#[derive(Clone, Copy, Debug, PartialEq, Eq, Structural)]
pub enum CreateConcretePropertyStmt {
    CREATE_OptPtrQuals_PROPERTY_UnqualifiedPointerName_ASSIGN_GenExpr,
    CREATE_OptPtrQuals_PROPERTY_UnqualifiedPointerName_OptCreateConcretePropertyCommandsBlock,
    CREATE_OptPtrQuals_PROPERTY_UnqualifiedPointerName_OptExtendingSimple_ARROW_FullTypeExpr_OptCreateConcretePropertyCommandsBlock,
    CREATE_OptPtrQuals_PROPERTY_UnqualifiedPointerName_OptExtendingSimple_COLON_FullTypeExpr_OptCreateConcretePropertyCommandsBlock,
}

#[derive(Clone, Copy, Debug, PartialEq, Eq, Structural)]
pub enum CreateConstraintStmt {
    CREATE_ABSTRACT_CONSTRAINT_NodeName_OptOnExpr_OptExtendingSimple_OptCreateCommandsBlock,
    CREATE_ABSTRACT_CONSTRAINT_NodeName_CreateFunctionArgs_OptOnExpr_OptExtendingSimple_OptCreateCommandsBlock,
}

#[derive(Clone, Copy, Debug, PartialEq, Eq, Structural)]
pub enum CreateDatabaseCommand {
    SetFieldStmt,
}

#[derive(Clone, Copy, Debug, PartialEq, Eq, Structural)]
pub enum CreateDatabaseCommandsBlock {
    LBRACE_CreateDatabaseCommandsList_OptSemicolons_RBRACE,
    LBRACE_OptSemicolons_RBRACE,
    LBRACE_Semicolons_CreateDatabaseCommandsList_OptSemicolons_RBRACE,
}

#[derive(Clone, Copy, Debug, PartialEq, Eq, Structural)]
pub enum CreateDatabaseCommandsList {
    CreateDatabaseCommand,
    CreateDatabaseCommandsList_Semicolons_CreateDatabaseCommand,
}

#[derive(Clone, Copy, Debug, PartialEq, Eq, Structural)]
pub enum CreateDatabaseStmt {
    CREATE_DATABASE_DatabaseName_FROM_AnyNodeName_OptCreateDatabaseCommandsBlock,
    CREATE_DATABASE_DatabaseName_OptCreateDatabaseCommandsBlock,
}

#[derive(Clone, Copy, Debug, PartialEq, Eq, Structural)]
pub enum CreateExtensionCommand {
    SetFieldStmt,
}

#[derive(Clone, Copy, Debug, PartialEq, Eq, Structural)]
pub enum CreateExtensionCommandsBlock {
    LBRACE_CreateExtensionCommandsList_OptSemicolons_RBRACE,
    LBRACE_OptSemicolons_RBRACE,
    LBRACE_Semicolons_CreateExtensionCommandsList_OptSemicolons_RBRACE,
}

#[derive(Clone, Copy, Debug, PartialEq, Eq, Structural)]
pub enum CreateExtensionCommandsList {
    CreateExtensionCommand,
    CreateExtensionCommandsList_Semicolons_CreateExtensionCommand,
}

#[derive(Clone, Copy, Debug, PartialEq, Eq, Structural)]
pub enum CreateExtensionPackageCommand {
    NestedQLBlockStmt,
}

#[derive(Clone, Copy, Debug, PartialEq, Eq, Structural)]
pub enum CreateExtensionPackageCommandsBlock {
    LBRACE_CreateExtensionPackageCommandsList_OptSemicolons_RBRACE,
    LBRACE_OptSemicolons_RBRACE,
    LBRACE_Semicolons_CreateExtensionPackageCommandsList_OptSemicolons_RBRACE,
}

#[derive(Clone, Copy, Debug, PartialEq, Eq, Structural)]
pub enum CreateExtensionPackageCommandsList {
    CreateExtensionPackageCommand,
    CreateExtensionPackageCommandsList_Semicolons_CreateExtensionPackageCommand,
}

#[derive(Clone, Copy, Debug, PartialEq, Eq, Structural)]
pub enum CreateExtensionPackageMigrationStmt {
    CREATE_EXTENSIONPACKAGE_ShortNodeName_MIGRATION_FROM_ExtensionVersion_TO_ExtensionVersion_OptCreateExtensionPackageCommandsBlock,
}

#[derive(Clone, Copy, Debug, PartialEq, Eq, Structural)]
pub enum CreateExtensionPackageStmt {
    CREATE_EXTENSIONPACKAGE_ShortNodeName_ExtensionVersion_OptCreateExtensionPackageCommandsBlock,
}

#[derive(Clone, Copy, Debug, PartialEq, Eq, Structural)]
pub enum CreateExtensionStmt {
    CREATE_EXTENSION_ShortNodeName_OptExtensionVersion_OptCreateExtensionCommandsBlock,
}

#[derive(Clone, Copy, Debug, PartialEq, Eq, Structural)]
pub enum CreateFunctionArgs {
    LPAREN_FuncDeclArgs_RPAREN,
    LPAREN_RPAREN,
}

#[derive(Clone, Copy, Debug, PartialEq, Eq, Structural)]
pub enum CreateFunctionCommand {
    AlterAnnotationValueStmt,
    CreateAnnotationValueStmt,
    FromFunction,
    SetFieldStmt,
}

#[derive(Clone, Copy, Debug, PartialEq, Eq, Structural)]
pub enum CreateFunctionCommandsBlock {
    CreateFunctionCommand,
    LBRACE_CreateFunctionCommandsList_OptSemicolons_RBRACE,
    LBRACE_OptSemicolons_RBRACE,
    LBRACE_Semicolons_CreateFunctionCommandsList_OptSemicolons_RBRACE,
}

#[derive(Clone, Copy, Debug, PartialEq, Eq, Structural)]
pub enum CreateFunctionCommandsList {
    CreateFunctionCommand,
    CreateFunctionCommandsList_Semicolons_CreateFunctionCommand,
}

#[derive(Clone, Copy, Debug, PartialEq, Eq, Structural)]
pub enum CreateFunctionSDLCommandFull {
    CreateFunctionSDLCommandShort_SEMICOLON,
}

#[derive(Clone, Copy, Debug, PartialEq, Eq, Structural)]
pub enum CreateFunctionSDLCommandShort {
    FromFunction,
    SetAnnotation,
    SetField,
}

#[derive(Clone, Copy, Debug, PartialEq, Eq, Structural)]
pub enum CreateFunctionSDLCommandsBlock {
    LBRACE_OptSemicolons_CreateFunctionSDLCommandShort_RBRACE,
    LBRACE_OptSemicolons_CreateFunctionSDLCommandsList_OptSemicolons_CreateFunctionSDLCommandShort_RBRACE,
    LBRACE_OptSemicolons_CreateFunctionSDLCommandsList_OptSemicolons_RBRACE,
    LBRACE_OptSemicolons_RBRACE,
}

#[derive(Clone, Copy, Debug, PartialEq, Eq, Structural)]
pub enum CreateFunctionSDLCommandsList {
    CreateFunctionSDLCommandFull,
    CreateFunctionSDLCommandsList_OptSemicolons_CreateFunctionSDLCommandFull,
}

#[derive(Clone, Copy, Debug, PartialEq, Eq, Structural)]
pub enum CreateFunctionSingleSDLCommandBlock {
    CreateFunctionSDLCommandShort,
}

#[derive(Clone, Copy, Debug, PartialEq, Eq, Structural)]
pub enum CreateFunctionStmt {
    CREATE_FUNCTION_NodeName_CreateFunctionArgs_ARROW_OptTypeQualifier_FunctionType_CreateFunctionCommandsBlock,
}

#[derive(Clone, Copy, Debug, PartialEq, Eq, Structural)]
pub enum CreateFutureStmt {
    CREATE_FUTURE_ShortNodeName,
}

#[derive(Clone, Copy, Debug, PartialEq, Eq, Structural)]
pub enum CreateGlobalCommand {
    CreateAnnotationValueStmt,
    SetFieldStmt,
    UsingStmt,
}

#[derive(Clone, Copy, Debug, PartialEq, Eq, Structural)]
pub enum CreateGlobalCommandsBlock {
    LBRACE_CreateGlobalCommandsList_OptSemicolons_RBRACE,
    LBRACE_OptSemicolons_RBRACE,
    LBRACE_Semicolons_CreateGlobalCommandsList_OptSemicolons_RBRACE,
}

#[derive(Clone, Copy, Debug, PartialEq, Eq, Structural)]
pub enum CreateGlobalCommandsList {
    CreateGlobalCommand,
    CreateGlobalCommandsList_Semicolons_CreateGlobalCommand,
}

#[derive(Clone, Copy, Debug, PartialEq, Eq, Structural)]
pub enum CreateGlobalSDLCommandFull {
    CreateGlobalSDLCommandShort_SEMICOLON,
}

#[derive(Clone, Copy, Debug, PartialEq, Eq, Structural)]
pub enum CreateGlobalSDLCommandShort {
    SetAnnotation,
    SetField,
    Using,
}

#[derive(Clone, Copy, Debug, PartialEq, Eq, Structural)]
pub enum CreateGlobalSDLCommandsBlock {
    LBRACE_OptSemicolons_CreateGlobalSDLCommandShort_RBRACE,
    LBRACE_OptSemicolons_CreateGlobalSDLCommandsList_OptSemicolons_CreateGlobalSDLCommandShort_RBRACE,
    LBRACE_OptSemicolons_CreateGlobalSDLCommandsList_OptSemicolons_RBRACE,
    LBRACE_OptSemicolons_RBRACE,
}

#[derive(Clone, Copy, Debug, PartialEq, Eq, Structural)]
pub enum CreateGlobalSDLCommandsList {
    CreateGlobalSDLCommandFull,
    CreateGlobalSDLCommandsList_OptSemicolons_CreateGlobalSDLCommandFull,
}

#[derive(Clone, Copy, Debug, PartialEq, Eq, Structural)]
pub enum CreateGlobalStmt {
    CREATE_OptPtrQuals_GLOBAL_NodeName_ASSIGN_GenExpr,
    CREATE_OptPtrQuals_GLOBAL_NodeName_OptCreateConcretePropertyCommandsBlock,
    CREATE_OptPtrQuals_GLOBAL_NodeName_ARROW_FullTypeExpr_OptCreateGlobalCommandsBlock,
    CREATE_OptPtrQuals_GLOBAL_NodeName_COLON_FullTypeExpr_OptCreateGlobalCommandsBlock,
}

#[derive(Clone, Copy, Debug, PartialEq, Eq, Structural)]
pub enum CreateIndexCommand {
    AlterAnnotationValueStmt,
    CreateAnnotationValueStmt,
    SetFieldStmt,
    UsingStmt,
}

#[derive(Clone, Copy, Debug, PartialEq, Eq, Structural)]
pub enum CreateIndexCommandsBlock {
    LBRACE_CreateIndexCommandsList_OptSemicolons_RBRACE,
    LBRACE_OptSemicolons_RBRACE,
    LBRACE_Semicolons_CreateIndexCommandsList_OptSemicolons_RBRACE,
}

#[derive(Clone, Copy, Debug, PartialEq, Eq, Structural)]
pub enum CreateIndexCommandsList {
    CreateIndexCommand,
    CreateIndexCommandsList_Semicolons_CreateIndexCommand,
}

#[derive(Clone, Copy, Debug, PartialEq, Eq, Structural)]
pub enum CreateIndexMatchCommand {
    CreateAnnotationValueStmt,
}

#[derive(Clone, Copy, Debug, PartialEq, Eq, Structural)]
pub enum CreateIndexMatchCommandsBlock {
    LBRACE_CreateIndexMatchCommandsList_OptSemicolons_RBRACE,
    LBRACE_OptSemicolons_RBRACE,
    LBRACE_Semicolons_CreateIndexMatchCommandsList_OptSemicolons_RBRACE,
}

#[derive(Clone, Copy, Debug, PartialEq, Eq, Structural)]
pub enum CreateIndexMatchCommandsList {
    CreateIndexMatchCommand,
    CreateIndexMatchCommandsList_Semicolons_CreateIndexMatchCommand,
}

#[derive(Clone, Copy, Debug, PartialEq, Eq, Structural)]
pub enum CreateIndexMatchStmt {
    CREATE_INDEX_MATCH_FOR_TypeName_USING_NodeName_OptCreateIndexMatchCommandsBlock,
}

#[derive(Clone, Copy, Debug, PartialEq, Eq, Structural)]
pub enum CreateIndexSDLCommandFull {
    CreateIndexSDLCommandShort_SEMICOLON,
}

#[derive(Clone, Copy, Debug, PartialEq, Eq, Structural)]
pub enum CreateIndexSDLCommandShort {
    SetAnnotation,
    SetField,
    Using,
}

#[derive(Clone, Copy, Debug, PartialEq, Eq, Structural)]
pub enum CreateIndexSDLCommandsBlock {
    LBRACE_OptSemicolons_CreateIndexSDLCommandShort_RBRACE,
    LBRACE_OptSemicolons_CreateIndexSDLCommandsList_OptSemicolons_CreateIndexSDLCommandShort_RBRACE,
    LBRACE_OptSemicolons_CreateIndexSDLCommandsList_OptSemicolons_RBRACE,
    LBRACE_OptSemicolons_RBRACE,
}

#[derive(Clone, Copy, Debug, PartialEq, Eq, Structural)]
pub enum CreateIndexSDLCommandsList {
    CreateIndexSDLCommandFull,
    CreateIndexSDLCommandsList_OptSemicolons_CreateIndexSDLCommandFull,
}

#[derive(Clone, Copy, Debug, PartialEq, Eq, Structural)]
pub enum CreateIndexStmt {
    CREATE_ABSTRACT_INDEX_NodeName_OptExtendingSimple_OptCreateIndexCommandsBlock,
    CREATE_ABSTRACT_INDEX_NodeName_IndexExtArgList_OptExtendingSimple_OptCreateIndexCommandsBlock,
}

#[derive(Clone, Copy, Debug, PartialEq, Eq, Structural)]
pub enum CreateLinkCommand {
    AlterAnnotationValueStmt,
    CreateAnnotationValueStmt,
    CreateConcreteConstraintStmt,
    CreateConcreteIndexStmt,
    CreateConcretePropertyStmt,
    CreateRewriteStmt,
    CreateSimpleExtending,
    SetFieldStmt,
}

#[derive(Clone, Copy, Debug, PartialEq, Eq, Structural)]
pub enum CreateLinkCommandsBlock {
    LBRACE_CreateLinkCommandsList_OptSemicolons_RBRACE,
    LBRACE_OptSemicolons_RBRACE,
    LBRACE_Semicolons_CreateLinkCommandsList_OptSemicolons_RBRACE,
}

#[derive(Clone, Copy, Debug, PartialEq, Eq, Structural)]
pub enum CreateLinkCommandsList {
    CreateLinkCommand,
    CreateLinkCommandsList_Semicolons_CreateLinkCommand,
}

#[derive(Clone, Copy, Debug, PartialEq, Eq, Structural)]
pub enum CreateLinkSDLCommandBlock {
    ConcreteConstraintBlock,
    ConcreteIndexDeclarationBlock,
    ConcretePropertyBlock,
    ConcreteUnknownPointerBlock,
    RewriteDeclarationBlock,
}

#[derive(Clone, Copy, Debug, PartialEq, Eq, Structural)]
pub enum CreateLinkSDLCommandFull {
    CreateLinkSDLCommandBlock,
    CreateLinkSDLCommandShort_SEMICOLON,
}

#[derive(Clone, Copy, Debug, PartialEq, Eq, Structural)]
pub enum CreateLinkSDLCommandShort {
    ConcreteConstraintShort,
    ConcreteIndexDeclarationShort,
    ConcretePropertyShort,
    ConcreteUnknownPointerShort,
    CreateSimpleExtending,
    RewriteDeclarationShort,
    SetAnnotation,
    SetField,
}

#[derive(Clone, Copy, Debug, PartialEq, Eq, Structural)]
pub enum CreateLinkSDLCommandsBlock {
    LBRACE_OptSemicolons_CreateLinkSDLCommandShort_RBRACE,
    LBRACE_OptSemicolons_CreateLinkSDLCommandsList_OptSemicolons_CreateLinkSDLCommandShort_RBRACE,
    LBRACE_OptSemicolons_CreateLinkSDLCommandsList_OptSemicolons_RBRACE,
    LBRACE_OptSemicolons_RBRACE,
}

#[derive(Clone, Copy, Debug, PartialEq, Eq, Structural)]
pub enum CreateLinkSDLCommandsList {
    CreateLinkSDLCommandFull,
    CreateLinkSDLCommandsList_OptSemicolons_CreateLinkSDLCommandFull,
}

#[derive(Clone, Copy, Debug, PartialEq, Eq, Structural)]
pub enum CreateLinkStmt {
    CREATE_ABSTRACT_LINK_PtrNodeName_OptExtendingSimple_OptCreateLinkCommandsBlock,
}

#[derive(Clone, Copy, Debug, PartialEq, Eq, Structural)]
pub enum CreateMigrationCommand {
    NestedQLBlockStmt,
}

#[derive(Clone, Copy, Debug, PartialEq, Eq, Structural)]
pub enum CreateMigrationCommandsBlock {
    LBRACE_CreateMigrationCommandsList_OptSemicolons_RBRACE,
    LBRACE_OptSemicolons_RBRACE,
    LBRACE_Semicolons_CreateMigrationCommandsList_OptSemicolons_RBRACE,
}

#[derive(Clone, Copy, Debug, PartialEq, Eq, Structural)]
pub enum CreateMigrationCommandsList {
    CreateMigrationCommand,
    CreateMigrationCommandsList_Semicolons_CreateMigrationCommand,
}

#[derive(Clone, Copy, Debug, PartialEq, Eq, Structural)]
pub enum CreateMigrationStmt {
    CREATE_APPLIED_MIGRATION_OptMigrationNameParentName_OptCreateMigrationCommandsBlock,
    CREATE_MIGRATION_OptMigrationNameParentName_OptCreateMigrationCommandsBlock,
}

#[derive(Clone, Copy, Debug, PartialEq, Eq, Structural)]
pub enum CreateModuleStmt {
    CREATE_MODULE_ModuleName_OptIfNotExists_OptCreateCommandsBlock,
}

#[derive(Clone, Copy, Debug, PartialEq, Eq, Structural)]
pub enum CreateObjectTypeCommand {
    AlterAccessPolicyStmt,
    AlterAnnotationValueStmt,
    AlterConcreteConstraintStmt,
    AlterConcreteIndexStmt,
    AlterConcreteLinkStmt,
    AlterConcretePropertyStmt,
    AlterTriggerStmt,
    CreateAccessPolicyStmt,
    CreateAnnotationValueStmt,
    CreateConcreteConstraintStmt,
    CreateConcreteIndexStmt,
    CreateConcreteLinkStmt,
    CreateConcretePropertyStmt,
    CreateTriggerStmt,
    SetFieldStmt,
}

#[derive(Clone, Copy, Debug, PartialEq, Eq, Structural)]
pub enum CreateObjectTypeCommandsBlock {
    LBRACE_CreateObjectTypeCommandsList_OptSemicolons_RBRACE,
    LBRACE_OptSemicolons_RBRACE,
    LBRACE_Semicolons_CreateObjectTypeCommandsList_OptSemicolons_RBRACE,
}

#[derive(Clone, Copy, Debug, PartialEq, Eq, Structural)]
pub enum CreateObjectTypeCommandsList {
    CreateObjectTypeCommand,
    CreateObjectTypeCommandsList_Semicolons_CreateObjectTypeCommand,
}

#[derive(Clone, Copy, Debug, PartialEq, Eq, Structural)]
pub enum CreateObjectTypeSDLCommandBlock {
    AccessPolicyDeclarationBlock,
    ConcreteConstraintBlock,
    ConcreteIndexDeclarationBlock,
    ConcreteLinkBlock,
    ConcretePropertyBlock,
    ConcreteUnknownPointerBlock,
    TriggerDeclarationBlock,
}

#[derive(Clone, Copy, Debug, PartialEq, Eq, Structural)]
pub enum CreateObjectTypeSDLCommandFull {
    CreateObjectTypeSDLCommandBlock,
    CreateObjectTypeSDLCommandShort_SEMICOLON,
}

#[derive(Clone, Copy, Debug, PartialEq, Eq, Structural)]
pub enum CreateObjectTypeSDLCommandShort {
    AccessPolicyDeclarationShort,
    ConcreteConstraintShort,
    ConcreteIndexDeclarationShort,
    ConcreteLinkShort,
    ConcretePropertyShort,
    ConcreteUnknownPointerObjectShort,
    ConcreteUnknownPointerShort,
    SetAnnotation,
    TriggerDeclarationShort,
}

#[derive(Clone, Copy, Debug, PartialEq, Eq, Structural)]
pub enum CreateObjectTypeSDLCommandsBlock {
    LBRACE_OptSemicolons_CreateObjectTypeSDLCommandShort_RBRACE,
    LBRACE_OptSemicolons_CreateObjectTypeSDLCommandsList_OptSemicolons_CreateObjectTypeSDLCommandShort_RBRACE,
    LBRACE_OptSemicolons_CreateObjectTypeSDLCommandsList_OptSemicolons_RBRACE,
    LBRACE_OptSemicolons_RBRACE,
}

#[derive(Clone, Copy, Debug, PartialEq, Eq, Structural)]
pub enum CreateObjectTypeSDLCommandsList {
    CreateObjectTypeSDLCommandFull,
    CreateObjectTypeSDLCommandsList_OptSemicolons_CreateObjectTypeSDLCommandFull,
}

#[derive(Clone, Copy, Debug, PartialEq, Eq, Structural)]
pub enum CreateObjectTypeStmt {
    CREATE_ABSTRACT_TYPE_NodeName_OptExtendingSimple_OptCreateObjectTypeCommandsBlock,
    CREATE_TYPE_NodeName_OptExtendingSimple_OptCreateObjectTypeCommandsBlock,
}

#[derive(Clone, Copy, Debug, PartialEq, Eq, Structural)]
pub enum CreateOperatorCommand {
    AlterAnnotationValueStmt,
    CreateAnnotationValueStmt,
    OperatorCode,
    SetFieldStmt,
}

#[derive(Clone, Copy, Debug, PartialEq, Eq, Structural)]
pub enum CreateOperatorCommandsBlock {
    CreateOperatorCommand,
    LBRACE_CreateOperatorCommandsList_OptSemicolons_RBRACE,
    LBRACE_OptSemicolons_RBRACE,
    LBRACE_Semicolons_CreateOperatorCommandsList_OptSemicolons_RBRACE,
}

#[derive(Clone, Copy, Debug, PartialEq, Eq, Structural)]
pub enum CreateOperatorCommandsList {
    CreateOperatorCommand,
    CreateOperatorCommandsList_Semicolons_CreateOperatorCommand,
}

#[derive(Clone, Copy, Debug, PartialEq, Eq, Structural)]
pub enum CreateOperatorStmt {
    CREATE_ABSTRACT_OperatorKind_OPERATOR_NodeName_CreateFunctionArgs_ARROW_OptTypeQualifier_FunctionType_OptCreateOperatorCommandsBlock,
    CREATE_OperatorKind_OPERATOR_NodeName_CreateFunctionArgs_ARROW_OptTypeQualifier_FunctionType_CreateOperatorCommandsBlock,
}

#[derive(Clone, Copy, Debug, PartialEq, Eq, Structural)]
pub enum CreatePermissionCommand {
    CreateAnnotationValueStmt,
}

#[derive(Clone, Copy, Debug, PartialEq, Eq, Structural)]
pub enum CreatePermissionCommandsBlock {
    LBRACE_CreatePermissionCommandsList_OptSemicolons_RBRACE,
    LBRACE_OptSemicolons_RBRACE,
    LBRACE_Semicolons_CreatePermissionCommandsList_OptSemicolons_RBRACE,
}

#[derive(Clone, Copy, Debug, PartialEq, Eq, Structural)]
pub enum CreatePermissionCommandsList {
    CreatePermissionCommand,
    CreatePermissionCommandsList_Semicolons_CreatePermissionCommand,
}

#[derive(Clone, Copy, Debug, PartialEq, Eq, Structural)]
pub enum CreatePermissionSDLCommandFull {
    CreatePermissionSDLCommandShort_SEMICOLON,
}

#[derive(Clone, Copy, Debug, PartialEq, Eq, Structural)]
pub enum CreatePermissionSDLCommandShort {
    SetAnnotation,
}

#[derive(Clone, Copy, Debug, PartialEq, Eq, Structural)]
pub enum CreatePermissionSDLCommandsBlock {
    LBRACE_OptSemicolons_CreatePermissionSDLCommandShort_RBRACE,
    LBRACE_OptSemicolons_CreatePermissionSDLCommandsList_OptSemicolons_CreatePermissionSDLCommandShort_RBRACE,
    LBRACE_OptSemicolons_CreatePermissionSDLCommandsList_OptSemicolons_RBRACE,
    LBRACE_OptSemicolons_RBRACE,
}

#[derive(Clone, Copy, Debug, PartialEq, Eq, Structural)]
pub enum CreatePermissionSDLCommandsList {
    CreatePermissionSDLCommandFull,
    CreatePermissionSDLCommandsList_OptSemicolons_CreatePermissionSDLCommandFull,
}

#[derive(Clone, Copy, Debug, PartialEq, Eq, Structural)]
pub enum CreatePermissionStmt {
    CREATE_PERMISSION_NodeName_OptCreatePermissionCommandsBlock,
}

#[derive(Clone, Copy, Debug, PartialEq, Eq, Structural)]
pub enum CreatePropertyCommand {
    AlterAnnotationValueStmt,
    CreateAnnotationValueStmt,
    CreateSimpleExtending,
    SetFieldStmt,
    UsingStmt,
}

#[derive(Clone, Copy, Debug, PartialEq, Eq, Structural)]
pub enum CreatePropertyCommandsBlock {
    LBRACE_CreatePropertyCommandsList_OptSemicolons_RBRACE,
    LBRACE_OptSemicolons_RBRACE,
    LBRACE_Semicolons_CreatePropertyCommandsList_OptSemicolons_RBRACE,
}

#[derive(Clone, Copy, Debug, PartialEq, Eq, Structural)]
pub enum CreatePropertyCommandsList {
    CreatePropertyCommand,
    CreatePropertyCommandsList_Semicolons_CreatePropertyCommand,
}

#[derive(Clone, Copy, Debug, PartialEq, Eq, Structural)]
pub enum CreatePropertySDLCommandFull {
    CreatePropertySDLCommandShort_SEMICOLON,
}

#[derive(Clone, Copy, Debug, PartialEq, Eq, Structural)]
pub enum CreatePropertySDLCommandShort {
    CreateSimpleExtending,
    SetAnnotation,
    SetField,
    Using,
}

#[derive(Clone, Copy, Debug, PartialEq, Eq, Structural)]
pub enum CreatePropertySDLCommandsBlock {
    LBRACE_OptSemicolons_CreatePropertySDLCommandShort_RBRACE,
    LBRACE_OptSemicolons_CreatePropertySDLCommandsList_OptSemicolons_CreatePropertySDLCommandShort_RBRACE,
    LBRACE_OptSemicolons_CreatePropertySDLCommandsList_OptSemicolons_RBRACE,
    LBRACE_OptSemicolons_RBRACE,
}

#[derive(Clone, Copy, Debug, PartialEq, Eq, Structural)]
pub enum CreatePropertySDLCommandsList {
    CreatePropertySDLCommandFull,
    CreatePropertySDLCommandsList_OptSemicolons_CreatePropertySDLCommandFull,
}

#[derive(Clone, Copy, Debug, PartialEq, Eq, Structural)]
pub enum CreatePropertyStmt {
    CREATE_ABSTRACT_PROPERTY_PtrNodeName_OptExtendingSimple_OptCreatePropertyCommandsBlock,
}

#[derive(Clone, Copy, Debug, PartialEq, Eq, Structural)]
pub enum CreatePseudoTypeCommand {
    AlterAnnotationValueStmt,
    CreateAnnotationValueStmt,
    SetFieldStmt,
}

#[derive(Clone, Copy, Debug, PartialEq, Eq, Structural)]
pub enum CreatePseudoTypeCommandsBlock {
    LBRACE_CreatePseudoTypeCommandsList_OptSemicolons_RBRACE,
    LBRACE_OptSemicolons_RBRACE,
    LBRACE_Semicolons_CreatePseudoTypeCommandsList_OptSemicolons_RBRACE,
}

#[derive(Clone, Copy, Debug, PartialEq, Eq, Structural)]
pub enum CreatePseudoTypeCommandsList {
    CreatePseudoTypeCommand,
    CreatePseudoTypeCommandsList_Semicolons_CreatePseudoTypeCommand,
}

#[derive(Clone, Copy, Debug, PartialEq, Eq, Structural)]
pub enum CreatePseudoTypeStmt {
    CREATE_PSEUDO_TYPE_NodeName_OptCreatePseudoTypeCommandsBlock,
}

#[derive(Clone, Copy, Debug, PartialEq, Eq, Structural)]
pub enum CreateRewriteCommand {
    CreateAnnotationValueStmt,
    SetFieldStmt,
}

#[derive(Clone, Copy, Debug, PartialEq, Eq, Structural)]
pub enum CreateRewriteCommandsBlock {
    LBRACE_CreateRewriteCommandsList_OptSemicolons_RBRACE,
    LBRACE_OptSemicolons_RBRACE,
    LBRACE_Semicolons_CreateRewriteCommandsList_OptSemicolons_RBRACE,
}

#[derive(Clone, Copy, Debug, PartialEq, Eq, Structural)]
pub enum CreateRewriteCommandsList {
    CreateRewriteCommand,
    CreateRewriteCommandsList_Semicolons_CreateRewriteCommand,
}

#[derive(Clone, Copy, Debug, PartialEq, Eq, Structural)]
pub enum CreateRewriteSDLCommandFull {
    CreateRewriteSDLCommandShort_SEMICOLON,
}

#[derive(Clone, Copy, Debug, PartialEq, Eq, Structural)]
pub enum CreateRewriteSDLCommandShort {
    SetAnnotation,
    SetField,
}

#[derive(Clone, Copy, Debug, PartialEq, Eq, Structural)]
pub enum CreateRewriteSDLCommandsBlock {
    LBRACE_OptSemicolons_CreateRewriteSDLCommandShort_RBRACE,
    LBRACE_OptSemicolons_CreateRewriteSDLCommandsList_OptSemicolons_CreateRewriteSDLCommandShort_RBRACE,
    LBRACE_OptSemicolons_CreateRewriteSDLCommandsList_OptSemicolons_RBRACE,
    LBRACE_OptSemicolons_RBRACE,
}

#[derive(Clone, Copy, Debug, PartialEq, Eq, Structural)]
pub enum CreateRewriteSDLCommandsList {
    CreateRewriteSDLCommandFull,
    CreateRewriteSDLCommandsList_OptSemicolons_CreateRewriteSDLCommandFull,
}

#[derive(Clone, Copy, Debug, PartialEq, Eq, Structural)]
pub enum CreateRewriteStmt {
    CREATE_REWRITE_RewriteKindList_USING_ParenExpr_OptCreateRewriteCommandsBlock,
}

#[derive(Clone, Copy, Debug, PartialEq, Eq, Structural)]
pub enum CreateRoleCommand {
    SetFieldStmt,
}

#[derive(Clone, Copy, Debug, PartialEq, Eq, Structural)]
pub enum CreateRoleCommandsBlock {
    LBRACE_CreateRoleCommandsList_OptSemicolons_RBRACE,
    LBRACE_OptSemicolons_RBRACE,
    LBRACE_Semicolons_CreateRoleCommandsList_OptSemicolons_RBRACE,
}

#[derive(Clone, Copy, Debug, PartialEq, Eq, Structural)]
pub enum CreateRoleCommandsList {
    CreateRoleCommand,
    CreateRoleCommandsList_Semicolons_CreateRoleCommand,
}

#[derive(Clone, Copy, Debug, PartialEq, Eq, Structural)]
pub enum CreateRoleStmt {
    CREATE_OptSuperuser_ROLE_ShortNodeName_OptShortExtending_OptIfNotExists_OptCreateRoleCommandsBlock,
}

#[derive(Clone, Copy, Debug, PartialEq, Eq, Structural)]
pub enum CreateSDLCommandFull {
    CreateSDLCommandShort_SEMICOLON,
}

#[derive(Clone, Copy, Debug, PartialEq, Eq, Structural)]
pub enum CreateSDLCommandShort {
    SetAnnotation,
    SetField,
    Using,
}

#[derive(Clone, Copy, Debug, PartialEq, Eq, Structural)]
pub enum CreateSDLCommandsBlock {
    LBRACE_OptSemicolons_CreateSDLCommandShort_RBRACE,
    LBRACE_OptSemicolons_CreateSDLCommandsList_OptSemicolons_CreateSDLCommandShort_RBRACE,
    LBRACE_OptSemicolons_CreateSDLCommandsList_OptSemicolons_RBRACE,
    LBRACE_OptSemicolons_RBRACE,
}

#[derive(Clone, Copy, Debug, PartialEq, Eq, Structural)]
pub enum CreateSDLCommandsList {
    CreateSDLCommandFull,
    CreateSDLCommandsList_OptSemicolons_CreateSDLCommandFull,
}

#[derive(Clone, Copy, Debug, PartialEq, Eq, Structural)]
pub enum CreateScalarTypeCommand {
    AlterAnnotationValueStmt,
    CreateAnnotationValueStmt,
    CreateConcreteConstraintStmt,
    SetFieldStmt,
}

#[derive(Clone, Copy, Debug, PartialEq, Eq, Structural)]
pub enum CreateScalarTypeCommandsBlock {
    LBRACE_CreateScalarTypeCommandsList_OptSemicolons_RBRACE,
    LBRACE_OptSemicolons_RBRACE,
    LBRACE_Semicolons_CreateScalarTypeCommandsList_OptSemicolons_RBRACE,
}

#[derive(Clone, Copy, Debug, PartialEq, Eq, Structural)]
pub enum CreateScalarTypeCommandsList {
    CreateScalarTypeCommand,
    CreateScalarTypeCommandsList_Semicolons_CreateScalarTypeCommand,
}

#[derive(Clone, Copy, Debug, PartialEq, Eq, Structural)]
pub enum CreateScalarTypeSDLCommandBlock {
    ConcreteConstraintBlock,
}

#[derive(Clone, Copy, Debug, PartialEq, Eq, Structural)]
pub enum CreateScalarTypeSDLCommandFull {
    CreateScalarTypeSDLCommandBlock,
    CreateScalarTypeSDLCommandShort_SEMICOLON,
}

#[derive(Clone, Copy, Debug, PartialEq, Eq, Structural)]
pub enum CreateScalarTypeSDLCommandShort {
    ConcreteConstraintShort,
    SetAnnotation,
    SetField,
}

#[derive(Clone, Copy, Debug, PartialEq, Eq, Structural)]
pub enum CreateScalarTypeSDLCommandsBlock {
    LBRACE_OptSemicolons_CreateScalarTypeSDLCommandShort_RBRACE,
    LBRACE_OptSemicolons_CreateScalarTypeSDLCommandsList_OptSemicolons_CreateScalarTypeSDLCommandShort_RBRACE,
    LBRACE_OptSemicolons_CreateScalarTypeSDLCommandsList_OptSemicolons_RBRACE,
    LBRACE_OptSemicolons_RBRACE,
}

#[derive(Clone, Copy, Debug, PartialEq, Eq, Structural)]
pub enum CreateScalarTypeSDLCommandsList {
    CreateScalarTypeSDLCommandFull,
    CreateScalarTypeSDLCommandsList_OptSemicolons_CreateScalarTypeSDLCommandFull,
}

#[derive(Clone, Copy, Debug, PartialEq, Eq, Structural)]
pub enum CreateScalarTypeStmt {
    CREATE_ABSTRACT_SCALAR_TYPE_NodeName_OptExtending_OptCreateScalarTypeCommandsBlock,
    CREATE_FINAL_SCALAR_TYPE_NodeName_OptExtending_OptCreateScalarTypeCommandsBlock,
    CREATE_SCALAR_TYPE_NodeName_OptExtending_OptCreateScalarTypeCommandsBlock,
}

#[derive(Clone, Copy, Debug, PartialEq, Eq, Structural)]
pub enum CreateSimpleExtending {
    EXTENDING_SimpleTypeNameList,
}

#[derive(Clone, Copy, Debug, PartialEq, Eq, Structural)]
pub enum CreateTriggerCommand {
    CreateAnnotationValueStmt,
    SetFieldStmt,
}

#[derive(Clone, Copy, Debug, PartialEq, Eq, Structural)]
pub enum CreateTriggerCommandsBlock {
    LBRACE_CreateTriggerCommandsList_OptSemicolons_RBRACE,
    LBRACE_OptSemicolons_RBRACE,
    LBRACE_Semicolons_CreateTriggerCommandsList_OptSemicolons_RBRACE,
}

#[derive(Clone, Copy, Debug, PartialEq, Eq, Structural)]
pub enum CreateTriggerCommandsList {
    CreateTriggerCommand,
    CreateTriggerCommandsList_Semicolons_CreateTriggerCommand,
}

#[derive(Clone, Copy, Debug, PartialEq, Eq, Structural)]
pub enum CreateTriggerSDLCommandFull {
    CreateTriggerSDLCommandShort_SEMICOLON,
}

#[derive(Clone, Copy, Debug, PartialEq, Eq, Structural)]
pub enum CreateTriggerSDLCommandShort {
    SetAnnotation,
    SetField,
}

#[derive(Clone, Copy, Debug, PartialEq, Eq, Structural)]
pub enum CreateTriggerSDLCommandsBlock {
    LBRACE_OptSemicolons_CreateTriggerSDLCommandShort_RBRACE,
    LBRACE_OptSemicolons_CreateTriggerSDLCommandsList_OptSemicolons_CreateTriggerSDLCommandShort_RBRACE,
    LBRACE_OptSemicolons_CreateTriggerSDLCommandsList_OptSemicolons_RBRACE,
    LBRACE_OptSemicolons_RBRACE,
}

#[derive(Clone, Copy, Debug, PartialEq, Eq, Structural)]
pub enum CreateTriggerSDLCommandsList {
    CreateTriggerSDLCommandFull,
    CreateTriggerSDLCommandsList_OptSemicolons_CreateTriggerSDLCommandFull,
}

#[derive(Clone, Copy, Debug, PartialEq, Eq, Structural)]
pub enum CreateTriggerStmt {
    CREATE_TRIGGER_UnqualifiedPointerName_TriggerTiming_TriggerKindList_FOR_TriggerScope_OptWhenBlock_DO_ParenExpr_OptCreateTriggerCommandsBlock,
}

#[derive(Clone, Copy, Debug, PartialEq, Eq, Structural)]
pub enum DDLStmt {
    BranchStmt,
    DatabaseStmt,
    ExtensionPackageStmt,
    MigrationStmt,
    OptWithDDLStmt,
    RoleStmt,
}

#[derive(Clone, Copy, Debug, PartialEq, Eq, Structural)]
pub enum DDLWithBlock {
    WithBlock,
}

#[derive(Clone, Copy, Debug, PartialEq, Eq, Structural)]
pub enum DatabaseName {
    Identifier,
    ReservedKeyword,
}

#[derive(Clone, Copy, Debug, PartialEq, Eq, Structural)]
pub enum DatabaseStmt {
    AlterDatabaseStmt,
    CreateDatabaseStmt,
    DropDatabaseStmt,
}

#[derive(Clone, Copy, Debug, PartialEq, Eq, Structural)]
pub enum DescribeFormat {
    AS_DDL,
    AS_JSON,
    AS_SDL,
    AS_TEXT,
    AS_TEXT_VERBOSE,
    epsilon,
}

#[derive(Clone, Copy, Debug, PartialEq, Eq, Structural)]
pub enum DescribeStmt {
    DESCRIBE_CURRENT_BRANCH_CONFIG_DescribeFormat,
    DESCRIBE_CURRENT_DATABASE_CONFIG_DescribeFormat,
    DESCRIBE_CURRENT_MIGRATION_DescribeFormat,
    DESCRIBE_INSTANCE_CONFIG_DescribeFormat,
    DESCRIBE_OBJECT_NodeName_DescribeFormat,
    DESCRIBE_ROLES_DescribeFormat,
    DESCRIBE_SCHEMA_DescribeFormat,
    DESCRIBE_SYSTEM_CONFIG_DescribeFormat,
    DESCRIBE_SchemaItem_DescribeFormat,
}

#[derive(Clone, Copy, Debug, PartialEq, Eq, Structural)]
pub enum DotName {
    DottedIdents,
}

#[derive(Clone, Copy, Debug, PartialEq, Eq, Structural)]
pub enum DottedIdents {
    AnyIdentifier,
    DottedIdents_DOT_AnyIdentifier,
}

#[derive(Clone, Copy, Debug, PartialEq, Eq, Structural)]
pub enum DropAccessPolicyStmt {
    DROP_ACCESS_POLICY_UnqualifiedPointerName,
}

#[derive(Clone, Copy, Debug, PartialEq, Eq, Structural)]
pub enum DropAliasStmt {
    DROP_ALIAS_NodeName,
}

#[derive(Clone, Copy, Debug, PartialEq, Eq, Structural)]
pub enum DropAnnotationStmt {
    DROP_ABSTRACT_ANNOTATION_NodeName,
}

#[derive(Clone, Copy, Debug, PartialEq, Eq, Structural)]
pub enum DropAnnotationValueStmt {
    DROP_ANNOTATION_NodeName,
}

#[derive(Clone, Copy, Debug, PartialEq, Eq, Structural)]
pub enum DropBranchStmt {
    DROP_BRANCH_DatabaseName_BranchOptions,
}

#[derive(Clone, Copy, Debug, PartialEq, Eq, Structural)]
pub enum DropCastStmt {
    DROP_CAST_FROM_TypeName_TO_TypeName,
}

#[derive(Clone, Copy, Debug, PartialEq, Eq, Structural)]
pub enum DropConcreteConstraintStmt {
    DROP_CONSTRAINT_NodeName_OptConcreteConstraintArgList_OptOnExpr_OptExceptExpr,
}

#[derive(Clone, Copy, Debug, PartialEq, Eq, Structural)]
pub enum DropConcreteIndexCommand {
    SetFieldStmt,
}

#[derive(Clone, Copy, Debug, PartialEq, Eq, Structural)]
pub enum DropConcreteIndexCommandsBlock {
    LBRACE_DropConcreteIndexCommandsList_OptSemicolons_RBRACE,
    LBRACE_OptSemicolons_RBRACE,
    LBRACE_Semicolons_DropConcreteIndexCommandsList_OptSemicolons_RBRACE,
}

#[derive(Clone, Copy, Debug, PartialEq, Eq, Structural)]
pub enum DropConcreteIndexCommandsList {
    DropConcreteIndexCommand,
    DropConcreteIndexCommandsList_Semicolons_DropConcreteIndexCommand,
}

#[derive(Clone, Copy, Debug, PartialEq, Eq, Structural)]
pub enum DropConcreteIndexStmt {
    DROP_INDEX_OnExpr_OptExceptExpr_OptDropConcreteIndexCommandsBlock,
    DROP_INDEX_NodeName_OptIndexExtArgList_OnExpr_OptExceptExpr_OptDropConcreteIndexCommandsBlock,
}

#[derive(Clone, Copy, Debug, PartialEq, Eq, Structural)]
pub enum DropConcreteLinkCommand {
    DropConcreteConstraintStmt,
    DropConcreteIndexStmt,
    DropConcretePropertyStmt,
}

#[derive(Clone, Copy, Debug, PartialEq, Eq, Structural)]
pub enum DropConcreteLinkCommandsBlock {
    LBRACE_DropConcreteLinkCommandsList_OptSemicolons_RBRACE,
    LBRACE_OptSemicolons_RBRACE,
    LBRACE_Semicolons_DropConcreteLinkCommandsList_OptSemicolons_RBRACE,
}

#[derive(Clone, Copy, Debug, PartialEq, Eq, Structural)]
pub enum DropConcreteLinkCommandsList {
    DropConcreteLinkCommand,
    DropConcreteLinkCommandsList_Semicolons_DropConcreteLinkCommand,
}

#[derive(Clone, Copy, Debug, PartialEq, Eq, Structural)]
pub enum DropConcreteLinkStmt {
    DROP_LINK_UnqualifiedPointerName_OptDropConcreteLinkCommandsBlock,
}

#[derive(Clone, Copy, Debug, PartialEq, Eq, Structural)]
pub enum DropConcretePropertyStmt {
    DROP_PROPERTY_UnqualifiedPointerName,
}

#[derive(Clone, Copy, Debug, PartialEq, Eq, Structural)]
pub enum DropConstraintStmt {
    DROP_ABSTRACT_CONSTRAINT_NodeName,
}

#[derive(Clone, Copy, Debug, PartialEq, Eq, Structural)]
pub enum DropDatabaseStmt {
    DROP_DATABASE_DatabaseName,
}

#[derive(Clone, Copy, Debug, PartialEq, Eq, Structural)]
pub enum DropExtensionPackageMigrationStmt {
    DROP_EXTENSIONPACKAGE_ShortNodeName_MIGRATION_FROM_ExtensionVersion_TO_ExtensionVersion,
}

#[derive(Clone, Copy, Debug, PartialEq, Eq, Structural)]
pub enum DropExtensionPackageStmt {
    DROP_EXTENSIONPACKAGE_ShortNodeName_ExtensionVersion,
}

#[derive(Clone, Copy, Debug, PartialEq, Eq, Structural)]
pub enum DropExtensionStmt {
    DROP_EXTENSION_ShortNodeName_OptExtensionVersion,
}

#[derive(Clone, Copy, Debug, PartialEq, Eq, Structural)]
pub enum DropFunctionStmt {
    DROP_FUNCTION_NodeName_CreateFunctionArgs,
}

#[derive(Clone, Copy, Debug, PartialEq, Eq, Structural)]
pub enum DropFutureStmt {
    DROP_FUTURE_ShortNodeName,
}

#[derive(Clone, Copy, Debug, PartialEq, Eq, Structural)]
pub enum DropGlobalStmt {
    DROP_GLOBAL_NodeName,
}

#[derive(Clone, Copy, Debug, PartialEq, Eq, Structural)]
pub enum DropIndexMatchStmt {
    DROP_INDEX_MATCH_FOR_TypeName_USING_NodeName,
}

#[derive(Clone, Copy, Debug, PartialEq, Eq, Structural)]
pub enum DropIndexStmt {
    DROP_ABSTRACT_INDEX_NodeName,
}

#[derive(Clone, Copy, Debug, PartialEq, Eq, Structural)]
pub enum DropLinkCommand {
    DropConcreteConstraintStmt,
    DropConcreteIndexStmt,
    DropConcretePropertyStmt,
}

#[derive(Clone, Copy, Debug, PartialEq, Eq, Structural)]
pub enum DropLinkCommandsBlock {
    LBRACE_DropLinkCommandsList_OptSemicolons_RBRACE,
    LBRACE_OptSemicolons_RBRACE,
    LBRACE_Semicolons_DropLinkCommandsList_OptSemicolons_RBRACE,
}

#[derive(Clone, Copy, Debug, PartialEq, Eq, Structural)]
pub enum DropLinkCommandsList {
    DropLinkCommand,
    DropLinkCommandsList_Semicolons_DropLinkCommand,
}

#[derive(Clone, Copy, Debug, PartialEq, Eq, Structural)]
pub enum DropLinkStmt {
    DROP_ABSTRACT_LINK_PtrNodeName_OptDropLinkCommandsBlock,
}

#[derive(Clone, Copy, Debug, PartialEq, Eq, Structural)]
pub enum DropMigrationStmt {
    DROP_MIGRATION_NodeName,
}

#[derive(Clone, Copy, Debug, PartialEq, Eq, Structural)]
pub enum DropModuleStmt {
    DROP_MODULE_ModuleName,
}

#[derive(Clone, Copy, Debug, PartialEq, Eq, Structural)]
pub enum DropObjectTypeCommand {
    DropConcreteConstraintStmt,
    DropConcreteIndexStmt,
    DropConcreteLinkStmt,
    DropConcretePropertyStmt,
}

#[derive(Clone, Copy, Debug, PartialEq, Eq, Structural)]
pub enum DropObjectTypeCommandsBlock {
    LBRACE_DropObjectTypeCommandsList_OptSemicolons_RBRACE,
    LBRACE_OptSemicolons_RBRACE,
    LBRACE_Semicolons_DropObjectTypeCommandsList_OptSemicolons_RBRACE,
}

#[derive(Clone, Copy, Debug, PartialEq, Eq, Structural)]
pub enum DropObjectTypeCommandsList {
    DropObjectTypeCommand,
    DropObjectTypeCommandsList_Semicolons_DropObjectTypeCommand,
}

#[derive(Clone, Copy, Debug, PartialEq, Eq, Structural)]
pub enum DropObjectTypeStmt {
    DROP_TYPE_NodeName_OptDropObjectTypeCommandsBlock,
}

#[derive(Clone, Copy, Debug, PartialEq, Eq, Structural)]
pub enum DropOperatorStmt {
    DROP_OperatorKind_OPERATOR_NodeName_CreateFunctionArgs,
}

#[derive(Clone, Copy, Debug, PartialEq, Eq, Structural)]
pub enum DropPermissionStmt {
    DROP_PERMISSION_NodeName,
}

#[derive(Clone, Copy, Debug, PartialEq, Eq, Structural)]
pub enum DropPropertyStmt {
    DROP_ABSTRACT_PROPERTY_PtrNodeName,
}

#[derive(Clone, Copy, Debug, PartialEq, Eq, Structural)]
pub enum DropRewriteStmt {
    DROP_REWRITE_RewriteKindList,
}

#[derive(Clone, Copy, Debug, PartialEq, Eq, Structural)]
pub enum DropRoleStmt {
    DROP_ROLE_ShortNodeName,
}

#[derive(Clone, Copy, Debug, PartialEq, Eq, Structural)]
pub enum DropScalarTypeStmt {
    DROP_SCALAR_TYPE_NodeName,
}

#[derive(Clone, Copy, Debug, PartialEq, Eq, Structural)]
pub enum DropTriggerStmt {
    DROP_TRIGGER_UnqualifiedPointerName,
}

#[derive(Clone, Copy, Debug, PartialEq, Eq, Structural)]
pub enum EdgeQLBlock {
    OptSemicolons,
    StatementBlock_OptSemicolons,
}

#[derive(Clone, Copy, Debug, PartialEq, Eq, Structural)]
pub enum EdgeQLGrammar {
    STARTBLOCK_EdgeQLBlock_EOI,
    STARTEXTENSION_CreateExtensionPackageCommandsBlock_EOI,
    STARTFRAGMENT_ExprStmt_EOI,
    STARTFRAGMENT_Expr_EOI,
    STARTMIGRATION_CreateMigrationCommandsBlock_EOI,
    STARTSDLDOCUMENT_SDLDocument_EOI,
}

#[derive(Clone, Copy, Debug, PartialEq, Eq, Structural)]
pub enum Expr {
    BaseAtomicExpr,
    DETACHED_Expr,
    DISTINCT_Expr,
    EXISTS_Expr,
    Expr_AND_Expr,
    Expr_CIRCUMFLEX_Expr,
    Expr_CompareOp_Expr_P_COMPARE_OP,
    Expr_DOUBLEPLUS_Expr,
    Expr_DOUBLEQMARK_Expr_P_DOUBLEQMARK_OP,
    Expr_DOUBLESLASH_Expr,
    Expr_EXCEPT_Expr,
    Expr_IF_Expr_ELSE_Expr,
    Expr_ILIKE_Expr,
    Expr_INTERSECT_Expr,
    Expr_IN_Expr,
    Expr_IS_NOT_TypeExpr_P_IS,
    Expr_IS_TypeExpr,
    Expr_IndirectionEl,
    Expr_LIKE_Expr,
    Expr_MINUS_Expr,
    Expr_NOT_ILIKE_Expr,
    Expr_NOT_IN_Expr_P_IN,
    Expr_NOT_LIKE_Expr,
    Expr_OR_Expr,
    Expr_PERCENT_Expr,
    Expr_PLUS_Expr,
    Expr_SLASH_Expr,
    Expr_STAR_Expr,
    Expr_Shape,
    Expr_UNION_Expr,
    GLOBAL_NodeName,
    INTROSPECT_TypeExpr,
    IfThenElseExpr,
    LANGBRACKET_FullTypeExpr_RANGBRACKET_Expr_P_TYPECAST,
    LANGBRACKET_OPTIONAL_FullTypeExpr_RANGBRACKET_Expr_P_TYPECAST,
    LANGBRACKET_REQUIRED_FullTypeExpr_RANGBRACKET_Expr_P_TYPECAST,
    MINUS_Expr_P_UMINUS,
    NOT_Expr,
    PLUS_Expr_P_UMINUS,
    Path,
}

#[derive(Clone, Copy, Debug, PartialEq, Eq, Structural)]
pub enum ExprList {
    ExprListInner,
    ExprListInner_COMMA,
}

#[derive(Clone, Copy, Debug, PartialEq, Eq, Structural)]
pub enum ExprListInner {
    ExprListInner_COMMA_GenExpr,
    GenExpr,
}

#[derive(Clone, Copy, Debug, PartialEq, Eq, Structural)]
pub enum ExprStmt {
    ExprStmtAnnoying,
    ExprStmtSimple,
}

#[derive(Clone, Copy, Debug, PartialEq, Eq, Structural)]
pub enum ExprStmtAnnoying {
    ExprStmtAnnoyingCore,
    WithBlock_ExprStmtAnnoyingCore,
}

#[derive(Clone, Copy, Debug, PartialEq, Eq, Structural)]
pub enum ExprStmtAnnoyingCore {
    AnnoyingFor,
    SimpleGroup,
}

#[derive(Clone, Copy, Debug, PartialEq, Eq, Structural)]
pub enum ExprStmtSimple {
    ExprStmtSimpleCore,
    WithBlock_ExprStmtSimpleCore,
}

#[derive(Clone, Copy, Debug, PartialEq, Eq, Structural)]
pub enum ExprStmtSimpleCore {
    InternalGroup,
    SimpleDelete,
    SimpleFor,
    SimpleInsert,
    SimpleSelect,
    SimpleUpdate,
}

#[derive(Clone, Copy, Debug, PartialEq, Eq, Structural)]
pub enum Extending {
    EXTENDING_TypeNameList,
}

#[derive(Clone, Copy, Debug, PartialEq, Eq, Structural)]
pub enum ExtendingSimple {
    EXTENDING_SimpleTypeNameList,
}

#[derive(Clone, Copy, Debug, PartialEq, Eq, Structural)]
pub enum ExtensionPackageStmt {
    CreateExtensionPackageMigrationStmt,
    CreateExtensionPackageStmt,
    DropExtensionPackageMigrationStmt,
    DropExtensionPackageStmt,
}

#[derive(Clone, Copy, Debug, PartialEq, Eq, Structural)]
pub enum ExtensionRequirementDeclaration {
    USING_EXTENSION_ShortNodeName_OptExtensionVersion,
}

#[derive(Clone, Copy, Debug, PartialEq, Eq, Structural)]
pub enum ExtensionStmt {
    AlterExtensionStmt,
    CreateExtensionStmt,
    DropExtensionStmt,
}

#[derive(Clone, Copy, Debug, PartialEq, Eq, Structural)]
pub enum ExtensionVersion {
    VERSION_BaseStringConstant,
}

#[derive(Clone, Copy, Debug, PartialEq, Eq, Structural)]
pub enum FilterClause {
    FILTER_Expr,
}

#[derive(Clone, Copy, Debug, PartialEq, Eq, Structural)]
pub enum FreeComputableShapePointer {
    FreeSimpleShapePointer_ASSIGN_GenExpr,
    MULTI_FreeSimpleShapePointer_ASSIGN_GenExpr,
    OPTIONAL_FreeSimpleShapePointer_ASSIGN_GenExpr,
    OPTIONAL_MULTI_FreeSimpleShapePointer_ASSIGN_GenExpr,
    OPTIONAL_SINGLE_FreeSimpleShapePointer_ASSIGN_GenExpr,
    REQUIRED_FreeSimpleShapePointer_ASSIGN_GenExpr,
    REQUIRED_MULTI_FreeSimpleShapePointer_ASSIGN_GenExpr,
    REQUIRED_SINGLE_FreeSimpleShapePointer_ASSIGN_GenExpr,
    SINGLE_FreeSimpleShapePointer_ASSIGN_GenExpr,
}

#[derive(Clone, Copy, Debug, PartialEq, Eq, Structural)]
pub enum FreeComputableShapePointerList {
    FreeComputableShapePointerListInner,
    FreeComputableShapePointerListInner_COMMA,
}

#[derive(Clone, Copy, Debug, PartialEq, Eq, Structural)]
pub enum FreeComputableShapePointerListInner {
    FreeComputableShapePointer,
    FreeComputableShapePointerListInner_COMMA_FreeComputableShapePointer,
}

#[derive(Clone, Copy, Debug, PartialEq, Eq, Structural)]
pub enum FreeShape {
    LBRACE_FreeComputableShapePointerList_RBRACE,
}

#[derive(Clone, Copy, Debug, PartialEq, Eq, Structural)]
pub enum FreeSimpleShapePointer {
    FreeStepName,
}

#[derive(Clone, Copy, Debug, PartialEq, Eq, Structural)]
pub enum FreeStepName {
    DUNDERTYPE,
    ShortNodeName,
}

#[derive(Clone, Copy, Debug, PartialEq, Eq, Structural)]
pub enum FromFunction {
    USING_Identifier_BaseStringConstant,
    USING_Identifier_EXPRESSION,
    USING_Identifier_FUNCTION_BaseStringConstant,
    USING_ParenExpr,
}

#[derive(Clone, Copy, Debug, PartialEq, Eq, Structural)]
pub enum FullTypeExpr {
    FullTypeExpr_AMPER_FullTypeExpr,
    FullTypeExpr_PIPE_FullTypeExpr,
    LPAREN_FullTypeExpr_RPAREN,
    TYPEOF_Expr,
    TypeName,
}

#[derive(Clone, Copy, Debug, PartialEq, Eq, Structural)]
pub enum FuncApplication {
    NodeName_LPAREN_OptFuncArgList_RPAREN,
}

#[derive(Clone, Copy, Debug, PartialEq, Eq, Structural)]
pub enum FuncArgList {
    FuncArgListInner,
    FuncArgListInner_COMMA,
}

#[derive(Clone, Copy, Debug, PartialEq, Eq, Structural)]
pub enum FuncArgListInner {
    FuncArgListInner_COMMA_FuncCallArg,
    FuncCallArg,
}

#[derive(Clone, Copy, Debug, PartialEq, Eq, Structural)]
pub enum FuncCallArg {
    AnyIdentifier_ASSIGN_ExprStmtSimple,
    ExprStmtSimple,
    FuncCallArgExpr_OptFilterClause_OptSortClause,
}

#[derive(Clone, Copy, Debug, PartialEq, Eq, Structural)]
pub enum FuncCallArgExpr {
    AnyIdentifier_ASSIGN_Expr,
    Expr,
    PARAMETER_ASSIGN_Expr,
}

#[derive(Clone, Copy, Debug, PartialEq, Eq, Structural)]
pub enum FuncDeclArg {
    OptParameterKind_FuncDeclArgName_OptDefault,
    OptParameterKind_FuncDeclArgName_COLON_OptTypeQualifier_FullTypeExpr_OptDefault,
}

#[derive(Clone, Copy, Debug, PartialEq, Eq, Structural)]
pub enum FuncDeclArgList {
    FuncDeclArgListInner,
    FuncDeclArgListInner_COMMA,
}

#[derive(Clone, Copy, Debug, PartialEq, Eq, Structural)]
pub enum FuncDeclArgListInner {
    FuncDeclArg,
    FuncDeclArgListInner_COMMA_FuncDeclArg,
}

#[derive(Clone, Copy, Debug, PartialEq, Eq, Structural)]
pub enum FuncDeclArgName {
    Identifier,
    PARAMETER,
}

#[derive(Clone, Copy, Debug, PartialEq, Eq, Structural)]
pub enum FuncDeclArgs {
    FuncDeclArgList,
}

#[derive(Clone, Copy, Debug, PartialEq, Eq, Structural)]
pub enum FuncExpr {
    FuncApplication,
}

#[derive(Clone, Copy, Debug, PartialEq, Eq, Structural)]
pub enum FunctionDeclaration {
    FUNCTION_NodeName_CreateFunctionArgs_ARROW_OptTypeQualifier_FunctionType_CreateFunctionSDLCommandsBlock,
}

#[derive(Clone, Copy, Debug, PartialEq, Eq, Structural)]
pub enum FunctionDeclarationShort {
    FUNCTION_NodeName_CreateFunctionArgs_ARROW_OptTypeQualifier_FunctionType_CreateFunctionSingleSDLCommandBlock,
}

#[derive(Clone, Copy, Debug, PartialEq, Eq, Structural)]
pub enum FunctionType {
    FullTypeExpr,
}

#[derive(Clone, Copy, Debug, PartialEq, Eq, Structural)]
pub enum FutureRequirementDeclaration {
    USING_FUTURE_ShortNodeName,
}

#[derive(Clone, Copy, Debug, PartialEq, Eq, Structural)]
pub enum FutureStmt {
    CreateFutureStmt,
    DropFutureStmt,
}

#[derive(Clone, Copy, Debug, PartialEq, Eq, Structural)]
pub enum GenExpr {
    Expr,
    ExprStmtSimpleCore,
}

#[derive(Clone, Copy, Debug, PartialEq, Eq, Structural)]
pub enum GlobalDeclaration {
    GLOBAL_NodeName_OptPtrTarget_CreateGlobalSDLCommandsBlock,
    PtrQuals_GLOBAL_NodeName_OptPtrTarget_CreateGlobalSDLCommandsBlock,
}

#[derive(Clone, Copy, Debug, PartialEq, Eq, Structural)]
pub enum GlobalDeclarationShort {
    GLOBAL_NodeName_ASSIGN_GenExpr,
    PtrQuals_GLOBAL_NodeName_ASSIGN_GenExpr,
    GLOBAL_NodeName_PtrTarget,
    PtrQuals_GLOBAL_NodeName_PtrTarget,
}

#[derive(Clone, Copy, Debug, PartialEq, Eq, Structural)]
pub enum GroupingAtom {
    GroupingIdent,
    LPAREN_GroupingIdentList_RPAREN,
}

#[derive(Clone, Copy, Debug, PartialEq, Eq, Structural)]
pub enum GroupingAtomList {
    GroupingAtomListInner,
    GroupingAtomListInner_COMMA,
}

#[derive(Clone, Copy, Debug, PartialEq, Eq, Structural)]
pub enum GroupingAtomListInner {
    GroupingAtom,
    GroupingAtomListInner_COMMA_GroupingAtom,
}

#[derive(Clone, Copy, Debug, PartialEq, Eq, Structural)]
pub enum GroupingElement {
    CUBE_LPAREN_GroupingAtomList_RPAREN,
    GroupingAtom,
    LBRACE_GroupingElementList_RBRACE,
    ROLLUP_LPAREN_GroupingAtomList_RPAREN,
}

#[derive(Clone, Copy, Debug, PartialEq, Eq, Structural)]
pub enum GroupingElementList {
    GroupingElementListInner,
    GroupingElementListInner_COMMA,
}

#[derive(Clone, Copy, Debug, PartialEq, Eq, Structural)]
pub enum GroupingElementListInner {
    GroupingElement,
    GroupingElementListInner_COMMA_GroupingElement,
}

#[derive(Clone, Copy, Debug, PartialEq, Eq, Structural)]
pub enum GroupingIdent {
    AT_Identifier,
    DOT_Identifier,
    Identifier,
}

#[derive(Clone, Copy, Debug, PartialEq, Eq, Structural)]
pub enum GroupingIdentList {
    GroupingIdent,
    GroupingIdentList_COMMA_GroupingIdent,
}

#[derive(Clone, Copy, Debug, PartialEq, Eq, Structural)]
pub enum Identifier {
    IDENT,
    UnreservedKeyword,
}

#[derive(Clone, Copy, Debug, PartialEq, Eq, Structural)]
pub enum IfThenElseExpr {
    IF_Expr_THEN_Expr_ELSE_Expr,
}

#[derive(Clone, Copy, Debug, PartialEq, Eq, Structural)]
pub enum IndexArg {
    AnyIdentifier_ASSIGN_Expr,
    FuncDeclArgName_OptDefault,
    FuncDeclArgName_COLON_OptTypeQualifier_FullTypeExpr_OptDefault,
    ParameterKind_FuncDeclArgName_COLON_OptTypeQualifier_FullTypeExpr_OptDefault,
}

#[derive(Clone, Copy, Debug, PartialEq, Eq, Structural)]
pub enum IndexArgList {
    IndexArgListInner,
    IndexArgListInner_COMMA,
}

#[derive(Clone, Copy, Debug, PartialEq, Eq, Structural)]
pub enum IndexArgListInner {
    IndexArg,
    IndexArgListInner_COMMA_IndexArg,
}

#[derive(Clone, Copy, Debug, PartialEq, Eq, Structural)]
pub enum IndexDeclaration {
    ABSTRACT_INDEX_NodeName_OptExtendingSimple_CreateIndexSDLCommandsBlock,
    ABSTRACT_INDEX_NodeName_IndexExtArgList_OptExtendingSimple_CreateIndexSDLCommandsBlock,
}

#[derive(Clone, Copy, Debug, PartialEq, Eq, Structural)]
pub enum IndexDeclarationShort {
    ABSTRACT_INDEX_NodeName_OptExtendingSimple,
    ABSTRACT_INDEX_NodeName_IndexExtArgList_OptExtendingSimple,
}

#[derive(Clone, Copy, Debug, PartialEq, Eq, Structural)]
pub enum IndexExtArgList {
    LPAREN_OptIndexArgList_RPAREN,
}

#[derive(Clone, Copy, Debug, PartialEq, Eq, Structural)]
pub enum IndirectionEl {
    LBRACKET_COLON_Expr_RBRACKET,
    LBRACKET_Expr_COLON_Expr_RBRACKET,
    LBRACKET_Expr_COLON_RBRACKET,
    LBRACKET_Expr_RBRACKET,
}

#[derive(Clone, Copy, Debug, PartialEq, Eq, Structural)]
pub enum InnerDDLStmt {
    AlterAliasStmt,
    AlterAnnotationStmt,
    AlterCastStmt,
    AlterConstraintStmt,
    AlterFunctionStmt,
    AlterGlobalStmt,
    AlterIndexStmt,
    AlterLinkStmt,
    AlterModuleStmt,
    AlterObjectTypeStmt,
    AlterOperatorStmt,
    AlterPermissionStmt,
    AlterPropertyStmt,
    AlterScalarTypeStmt,
    CreateAliasStmt,
    CreateAnnotationStmt,
    CreateCastStmt,
    CreateConstraintStmt,
    CreateFunctionStmt,
    CreateGlobalStmt,
    CreateIndexMatchStmt,
    CreateIndexStmt,
    CreateLinkStmt,
    CreateModuleStmt,
    CreateObjectTypeStmt,
    CreateOperatorStmt,
    CreatePermissionStmt,
    CreatePropertyStmt,
    CreatePseudoTypeStmt,
    CreateScalarTypeStmt,
    DropAliasStmt,
    DropAnnotationStmt,
    DropCastStmt,
    DropConstraintStmt,
    DropFunctionStmt,
    DropGlobalStmt,
    DropIndexMatchStmt,
    DropIndexStmt,
    DropLinkStmt,
    DropModuleStmt,
    DropObjectTypeStmt,
    DropOperatorStmt,
    DropPermissionStmt,
    DropPropertyStmt,
    DropScalarTypeStmt,
    ExtensionStmt,
    FutureStmt,
}

#[derive(Clone, Copy, Debug, PartialEq, Eq, Structural)]
pub enum InternalGroup {
    FOR_GROUP_OptionallyAliasedExpr_UsingClause_ByClause_IN_Identifier_OptGroupingAlias_UNION_OptionallyAliasedExpr_OptFilterClause_OptSortClause,
}

#[derive(Clone, Copy, Debug, PartialEq, Eq, Structural)]
pub enum LimitClause {
    LIMIT_Expr,
}

#[derive(Clone, Copy, Debug, PartialEq, Eq, Structural)]
pub enum LinkDeclaration {
    ABSTRACT_LINK_PtrNodeName_OptExtendingSimple_CreateLinkSDLCommandsBlock,
}

#[derive(Clone, Copy, Debug, PartialEq, Eq, Structural)]
pub enum LinkDeclarationShort {
    ABSTRACT_LINK_PtrNodeName_OptExtendingSimple,
}

#[derive(Clone, Copy, Debug, PartialEq, Eq, Structural)]
pub enum MigrationStmt {
    AbortMigrationStmt,
    AlterCurrentMigrationStmt,
    AlterMigrationStmt,
    CommitMigrationStmt,
    CreateMigrationStmt,
    DropMigrationStmt,
    PopulateMigrationStmt,
    ResetSchemaStmt,
    StartMigrationStmt,
}

#[derive(Clone, Copy, Debug, PartialEq, Eq, Structural)]
pub enum ModuleDeclaration {
    MODULE_ModuleName_SDLCommandBlock,
}

#[derive(Clone, Copy, Debug, PartialEq, Eq, Structural)]
pub enum ModuleName {
    DotName,
    ModuleName_DOUBLECOLON_DotName,
}

#[derive(Clone, Copy, Debug, PartialEq, Eq, Structural)]
pub enum NamedTuple {
    LPAREN_NamedTupleElementList_RPAREN,
}

#[derive(Clone, Copy, Debug, PartialEq, Eq, Structural)]
pub enum NamedTupleElement {
    ShortNodeName_ASSIGN_GenExpr,
}

#[derive(Clone, Copy, Debug, PartialEq, Eq, Structural)]
pub enum NamedTupleElementList {
    NamedTupleElementListInner,
    NamedTupleElementListInner_COMMA,
}

#[derive(Clone, Copy, Debug, PartialEq, Eq, Structural)]
pub enum NamedTupleElementListInner {
    NamedTupleElement,
    NamedTupleElementListInner_COMMA_NamedTupleElement,
}

#[derive(Clone, Copy, Debug, PartialEq, Eq, Structural)]
pub enum NestedQLBlockStmt {
    OptWithDDLStmt,
    SetFieldStmt,
    Stmt,
}

#[derive(Clone, Copy, Debug, PartialEq, Eq, Structural)]
pub enum NodeName {
    BaseName,
}

#[derive(Clone, Copy, Debug, PartialEq, Eq, Structural)]
pub enum NontrivialTypeExpr {
    LPAREN_FullTypeExpr_RPAREN,
    TYPEOF_Expr,
    TypeExpr_AMPER_TypeExpr,
    TypeExpr_PIPE_TypeExpr,
}

#[derive(Clone, Copy, Debug, PartialEq, Eq, Structural)]
pub enum ObjectTypeDeclaration {
    ABSTRACT_TYPE_NodeName_OptExtendingSimple_CreateObjectTypeSDLCommandsBlock,
    TYPE_NodeName_OptExtendingSimple_CreateObjectTypeSDLCommandsBlock,
}

#[derive(Clone, Copy, Debug, PartialEq, Eq, Structural)]
pub enum ObjectTypeDeclarationShort {
    ABSTRACT_TYPE_NodeName_OptExtendingSimple,
    TYPE_NodeName_OptExtendingSimple,
}

#[derive(Clone, Copy, Debug, PartialEq, Eq, Structural)]
pub enum OffsetClause {
    OFFSET_Expr,
}

#[derive(Clone, Copy, Debug, PartialEq, Eq, Structural)]
pub enum OnExpr {
    ON_ParenExpr,
}

#[derive(Clone, Copy, Debug, PartialEq, Eq, Structural)]
pub enum OnSourceDeleteResetStmt {
    RESET_ON_SOURCE_DELETE,
}

#[derive(Clone, Copy, Debug, PartialEq, Eq, Structural)]
pub enum OnSourceDeleteStmt {
    ON_SOURCE_DELETE_ALLOW,
    ON_SOURCE_DELETE_DELETE_TARGET,
    ON_SOURCE_DELETE_DELETE_TARGET_IF_ORPHAN,
}

#[derive(Clone, Copy, Debug, PartialEq, Eq, Structural)]
pub enum OnTargetDeleteResetStmt {
    RESET_ON_TARGET_DELETE,
}

#[derive(Clone, Copy, Debug, PartialEq, Eq, Structural)]
pub enum OnTargetDeleteStmt {
    ON_TARGET_DELETE_ALLOW,
    ON_TARGET_DELETE_DEFERRED_RESTRICT,
    ON_TARGET_DELETE_DELETE_SOURCE,
    ON_TARGET_DELETE_RESTRICT,
}

#[derive(Clone, Copy, Debug, PartialEq, Eq, Structural)]
pub enum OperatorCode {
    USING_Identifier_BaseStringConstant,
    USING_Identifier_EXPRESSION,
    USING_Identifier_FUNCTION_BaseStringConstant,
    USING_Identifier_OPERATOR_BaseStringConstant,
}

#[derive(Clone, Copy, Debug, PartialEq, Eq, Structural)]
pub enum OperatorKind {
    INFIX,
    POSTFIX,
    PREFIX,
    TERNARY,
}

#[derive(Clone, Copy, Debug, PartialEq, Eq, Structural)]
pub enum OptAlterUsingClause {
    USING_ParenExpr,
    epsilon,
}

#[derive(Clone, Copy, Debug, PartialEq, Eq, Structural)]
pub enum OptAnySubShape {
    COLON_Shape,
    epsilon,
}

#[derive(Clone, Copy, Debug, PartialEq, Eq, Structural)]
pub enum OptConcreteConstraintArgList {
    LPAREN_OptPosCallArgList_RPAREN,
    epsilon,
}

#[derive(Clone, Copy, Debug, PartialEq, Eq, Structural)]
pub enum OptCreateAccessPolicyCommandsBlock {
    CreateAccessPolicyCommandsBlock,
    epsilon,
}

#[derive(Clone, Copy, Debug, PartialEq, Eq, Structural)]
pub enum OptCreateAnnotationCommandsBlock {
    CreateAnnotationCommandsBlock,
    epsilon,
}

#[derive(Clone, Copy, Debug, PartialEq, Eq, Structural)]
pub enum OptCreateCommandsBlock {
    CreateCommandsBlock,
    epsilon,
}

#[derive(Clone, Copy, Debug, PartialEq, Eq, Structural)]
pub enum OptCreateConcreteLinkCommandsBlock {
    CreateConcreteLinkCommandsBlock,
    epsilon,
}

#[derive(Clone, Copy, Debug, PartialEq, Eq, Structural)]
pub enum OptCreateConcretePropertyCommandsBlock {
    CreateConcretePropertyCommandsBlock,
    epsilon,
}

#[derive(Clone, Copy, Debug, PartialEq, Eq, Structural)]
pub enum OptCreateDatabaseCommandsBlock {
    CreateDatabaseCommandsBlock,
    epsilon,
}

#[derive(Clone, Copy, Debug, PartialEq, Eq, Structural)]
pub enum OptCreateExtensionCommandsBlock {
    CreateExtensionCommandsBlock,
    epsilon,
}

#[derive(Clone, Copy, Debug, PartialEq, Eq, Structural)]
pub enum OptCreateExtensionPackageCommandsBlock {
    CreateExtensionPackageCommandsBlock,
    epsilon,
}

#[derive(Clone, Copy, Debug, PartialEq, Eq, Structural)]
pub enum OptCreateGlobalCommandsBlock {
    CreateGlobalCommandsBlock,
    epsilon,
}

#[derive(Clone, Copy, Debug, PartialEq, Eq, Structural)]
pub enum OptCreateIndexCommandsBlock {
    CreateIndexCommandsBlock,
    epsilon,
}

#[derive(Clone, Copy, Debug, PartialEq, Eq, Structural)]
pub enum OptCreateIndexMatchCommandsBlock {
    CreateIndexMatchCommandsBlock,
    epsilon,
}

#[derive(Clone, Copy, Debug, PartialEq, Eq, Structural)]
pub enum OptCreateLinkCommandsBlock {
    CreateLinkCommandsBlock,
    epsilon,
}

#[derive(Clone, Copy, Debug, PartialEq, Eq, Structural)]
pub enum OptCreateMigrationCommandsBlock {
    CreateMigrationCommandsBlock,
    epsilon,
}

#[derive(Clone, Copy, Debug, PartialEq, Eq, Structural)]
pub enum OptCreateObjectTypeCommandsBlock {
    CreateObjectTypeCommandsBlock,
    epsilon,
}

#[derive(Clone, Copy, Debug, PartialEq, Eq, Structural)]
pub enum OptCreateOperatorCommandsBlock {
    CreateOperatorCommandsBlock,
    epsilon,
}

#[derive(Clone, Copy, Debug, PartialEq, Eq, Structural)]
pub enum OptCreatePermissionCommandsBlock {
    CreatePermissionCommandsBlock,
    epsilon,
}

#[derive(Clone, Copy, Debug, PartialEq, Eq, Structural)]
pub enum OptCreatePropertyCommandsBlock {
    CreatePropertyCommandsBlock,
    epsilon,
}

#[derive(Clone, Copy, Debug, PartialEq, Eq, Structural)]
pub enum OptCreatePseudoTypeCommandsBlock {
    CreatePseudoTypeCommandsBlock,
    epsilon,
}

#[derive(Clone, Copy, Debug, PartialEq, Eq, Structural)]
pub enum OptCreateRewriteCommandsBlock {
    CreateRewriteCommandsBlock,
    epsilon,
}

#[derive(Clone, Copy, Debug, PartialEq, Eq, Structural)]
pub enum OptCreateRoleCommandsBlock {
    CreateRoleCommandsBlock,
    epsilon,
}

#[derive(Clone, Copy, Debug, PartialEq, Eq, Structural)]
pub enum OptCreateScalarTypeCommandsBlock {
    CreateScalarTypeCommandsBlock,
    epsilon,
}

#[derive(Clone, Copy, Debug, PartialEq, Eq, Structural)]
pub enum OptCreateTriggerCommandsBlock {
    CreateTriggerCommandsBlock,
    epsilon,
}

#[derive(Clone, Copy, Debug, PartialEq, Eq, Structural)]
pub enum OptDefault {
    EQUALS_Expr,
    epsilon,
}

#[derive(Clone, Copy, Debug, PartialEq, Eq, Structural)]
pub enum OptDeferred {
    DEFERRED,
    epsilon,
}

#[derive(Clone, Copy, Debug, PartialEq, Eq, Structural)]
pub enum OptDelegated {
    DELEGATED,
    epsilon,
}

#[derive(Clone, Copy, Debug, PartialEq, Eq, Structural)]
pub enum OptDirection {
    ASC,
    DESC,
    epsilon,
}

#[derive(Clone, Copy, Debug, PartialEq, Eq, Structural)]
pub enum OptDropConcreteIndexCommandsBlock {
    DropConcreteIndexCommandsBlock,
    epsilon,
}

#[derive(Clone, Copy, Debug, PartialEq, Eq, Structural)]
pub enum OptDropConcreteLinkCommandsBlock {
    DropConcreteLinkCommandsBlock,
    epsilon,
}

#[derive(Clone, Copy, Debug, PartialEq, Eq, Structural)]
pub enum OptDropLinkCommandsBlock {
    DropLinkCommandsBlock,
    epsilon,
}

#[derive(Clone, Copy, Debug, PartialEq, Eq, Structural)]
pub enum OptDropObjectTypeCommandsBlock {
    DropObjectTypeCommandsBlock,
    epsilon,
}

#[derive(Clone, Copy, Debug, PartialEq, Eq, Structural)]
pub enum OptExceptExpr {
    EXCEPT_ParenExpr,
    epsilon,
}

#[derive(Clone, Copy, Debug, PartialEq, Eq, Structural)]
pub enum OptExprList {
    ExprList,
    epsilon,
}

#[derive(Clone, Copy, Debug, PartialEq, Eq, Structural)]
pub enum OptExtending {
    Extending,
    epsilon,
}

#[derive(Clone, Copy, Debug, PartialEq, Eq, Structural)]
pub enum OptExtendingSimple {
    ExtendingSimple,
    epsilon,
}

#[derive(Clone, Copy, Debug, PartialEq, Eq, Structural)]
pub enum OptExtensionVersion {
    ExtensionVersion,
    epsilon,
}

#[derive(Clone, Copy, Debug, PartialEq, Eq, Structural)]
pub enum OptFilterClause {
    FilterClause,
    epsilon,
}

#[derive(Clone, Copy, Debug, PartialEq, Eq, Structural)]
pub enum OptFuncArgList {
    FuncArgList,
    epsilon,
}

#[derive(Clone, Copy, Debug, PartialEq, Eq, Structural)]
pub enum OptGroupingAlias {
    COMMA_Identifier,
    epsilon,
}

#[derive(Clone, Copy, Debug, PartialEq, Eq, Structural)]
pub enum OptIfNotExists {
    IF_NOT_EXISTS,
    epsilon,
}

#[derive(Clone, Copy, Debug, PartialEq, Eq, Structural)]
pub enum OptIndexArgList {
    IndexArgList,
    epsilon,
}

#[derive(Clone, Copy, Debug, PartialEq, Eq, Structural)]
pub enum OptIndexExtArgList {
    IndexExtArgList,
    epsilon,
}

#[derive(Clone, Copy, Debug, PartialEq, Eq, Structural)]
pub enum OptMigrationNameParentName {
    ShortNodeName,
    ShortNodeName_ONTO_ShortNodeName,
    epsilon,
}

#[derive(Clone, Copy, Debug, PartialEq, Eq, Structural)]
pub enum OptNonesOrder {
    EMPTY_FIRST,
    EMPTY_LAST,
    epsilon,
}

#[derive(Clone, Copy, Debug, PartialEq, Eq, Structural)]
pub enum OptOnExpr {
    OnExpr,
    epsilon,
}

#[derive(Clone, Copy, Debug, PartialEq, Eq, Structural)]
pub enum OptParameterKind {
    ParameterKind,
    epsilon,
}

#[derive(Clone, Copy, Debug, PartialEq, Eq, Structural)]
pub enum OptPosCallArgList {
    PosCallArgList,
    epsilon,
}

#[derive(Clone, Copy, Debug, PartialEq, Eq, Structural)]
pub enum OptPosition {
    AFTER_NodeName,
    BEFORE_NodeName,
    FIRST,
    LAST,
    epsilon,
}

#[derive(Clone, Copy, Debug, PartialEq, Eq, Structural)]
pub enum OptPtrQuals {
    PtrQuals,
    epsilon,
}

#[derive(Clone, Copy, Debug, PartialEq, Eq, Structural)]
pub enum OptPtrTarget {
    PtrTarget,
    epsilon,
}

#[derive(Clone, Copy, Debug, PartialEq, Eq, Structural)]
pub enum OptSelectLimit {
    SelectLimit,
    epsilon,
}

#[derive(Clone, Copy, Debug, PartialEq, Eq, Structural)]
pub enum OptSemicolons {
    Semicolons,
    epsilon,
}

#[derive(Clone, Copy, Debug, PartialEq, Eq, Structural)]
pub enum OptShortExtending {
    ShortExtending,
    epsilon,
}

#[derive(Clone, Copy, Debug, PartialEq, Eq, Structural)]
pub enum OptSortClause {
    SortClause,
    epsilon,
}

#[derive(Clone, Copy, Debug, PartialEq, Eq, Structural)]
pub enum OptSuperuser {
    SUPERUSER,
    epsilon,
}

#[derive(Clone, Copy, Debug, PartialEq, Eq, Structural)]
pub enum OptTransactionModeList {
    TransactionModeList,
    epsilon,
}

#[derive(Clone, Copy, Debug, PartialEq, Eq, Structural)]
pub enum OptTypeIntersection {
    TypeIntersection,
    epsilon,
}

#[derive(Clone, Copy, Debug, PartialEq, Eq, Structural)]
pub enum OptTypeQualifier {
    OPTIONAL,
    SET_OF,
    epsilon,
}

#[derive(Clone, Copy, Debug, PartialEq, Eq, Structural)]
pub enum OptUnlessConflictClause {
    UnlessConflictCause,
    epsilon,
}

#[derive(Clone, Copy, Debug, PartialEq, Eq, Structural)]
pub enum OptUsingBlock {
    USING_ParenExpr,
    epsilon,
}

#[derive(Clone, Copy, Debug, PartialEq, Eq, Structural)]
pub enum OptUsingClause {
    UsingClause,
    epsilon,
}

#[derive(Clone, Copy, Debug, PartialEq, Eq, Structural)]
pub enum OptWhenBlock {
    WHEN_ParenExpr,
    epsilon,
}

#[derive(Clone, Copy, Debug, PartialEq, Eq, Structural)]
pub enum OptWithDDLStmt {
    DDLWithBlock_WithDDLStmt,
    WithDDLStmt,
}

#[derive(Clone, Copy, Debug, PartialEq, Eq, Structural)]
pub enum OptionalOptional {
    OPTIONAL,
    epsilon,
}

#[derive(Clone, Copy, Debug, PartialEq, Eq, Structural)]
pub enum OptionallyAliasedExpr {
    AliasedExpr,
    Expr,
}

#[derive(Clone, Copy, Debug, PartialEq, Eq, Structural)]
pub enum OrderbyExpr {
    Expr_OptDirection_OptNonesOrder,
}

#[derive(Clone, Copy, Debug, PartialEq, Eq, Structural)]
pub enum OrderbyList {
    OrderbyExpr,
    OrderbyList_THEN_OrderbyExpr,
}

#[derive(Clone, Copy, Debug, PartialEq, Eq, Structural)]
pub enum ParameterKind {
    NAMEDONLY,
    VARIADIC,
}

#[derive(Clone, Copy, Debug, PartialEq, Eq, Structural)]
pub enum ParenExpr {
    LPAREN_ExprStmt_RPAREN,
    LPAREN_Expr_RPAREN,
}

#[derive(Clone, Copy, Debug, PartialEq, Eq, Structural)]
pub enum ParenTypeExpr {
    LPAREN_FullTypeExpr_RPAREN,
}

#[derive(Clone, Copy, Debug, PartialEq, Eq, Structural)]
pub enum PartialReservedKeyword {
    EXCEPT,
    INTERSECT,
    UNION,
}

#[derive(Clone, Copy, Debug, PartialEq, Eq, Structural)]
pub enum Path {
    Expr_PathStep_P_DOT,
}

#[derive(Clone, Copy, Debug, PartialEq, Eq, Structural)]
pub enum PathNodeName {
    PtrIdentifier,
}

#[derive(Clone, Copy, Debug, PartialEq, Eq, Structural)]
pub enum PathStep {
    AT_PathNodeName,
    DOTBW_PathStepName,
    DOT_ICONST,
    DOT_PathStepName,
    TypeIntersection,
}

#[derive(Clone, Copy, Debug, PartialEq, Eq, Structural)]
pub enum PathStepName {
    DUNDERTYPE,
    PathNodeName,
}

#[derive(Clone, Copy, Debug, PartialEq, Eq, Structural)]
pub enum PermissionDeclaration {
    PERMISSION_NodeName_CreatePermissionSDLCommandsBlock,
}

#[derive(Clone, Copy, Debug, PartialEq, Eq, Structural)]
pub enum PermissionDeclarationShort {
    PERMISSION_NodeName,
}

#[derive(Clone, Copy, Debug, PartialEq, Eq, Structural)]
pub enum PointerName {
    DUNDERTYPE,
    PtrNodeName,
}

#[derive(Clone, Copy, Debug, PartialEq, Eq, Structural)]
pub enum PopulateMigrationStmt {
    POPULATE_MIGRATION,
}

#[derive(Clone, Copy, Debug, PartialEq, Eq, Structural)]
pub enum PosCallArg {
    Expr_OptFilterClause_OptSortClause,
}

#[derive(Clone, Copy, Debug, PartialEq, Eq, Structural)]
pub enum PosCallArgList {
    PosCallArg,
    PosCallArgList_COMMA_PosCallArg,
}

#[derive(Clone, Copy, Debug, PartialEq, Eq, Structural)]
pub enum PropertyDeclaration {
    ABSTRACT_PROPERTY_PtrNodeName_OptExtendingSimple_CreatePropertySDLCommandsBlock,
}

#[derive(Clone, Copy, Debug, PartialEq, Eq, Structural)]
pub enum PropertyDeclarationShort {
    ABSTRACT_PROPERTY_PtrNodeName_OptExtendingSimple,
}

#[derive(Clone, Copy, Debug, PartialEq, Eq, Structural)]
pub enum PtrIdentifier {
    Identifier,
    PartialReservedKeyword,
}

#[derive(Clone, Copy, Debug, PartialEq, Eq, Structural)]
pub enum PtrName {
    PtrIdentifier,
    QualifiedName,
}

#[derive(Clone, Copy, Debug, PartialEq, Eq, Structural)]
pub enum PtrNodeName {
    PtrName,
}

#[derive(Clone, Copy, Debug, PartialEq, Eq, Structural)]
pub enum PtrQualifiedNodeName {
    QualifiedName,
}

#[derive(Clone, Copy, Debug, PartialEq, Eq, Structural)]
pub enum PtrQuals {
    MULTI,
    OPTIONAL,
    OPTIONAL_MULTI,
    OPTIONAL_SINGLE,
    REQUIRED,
    REQUIRED_MULTI,
    REQUIRED_SINGLE,
    SINGLE,
}

#[derive(Clone, Copy, Debug, PartialEq, Eq, Structural)]
pub enum PtrTarget {
    ARROW_FullTypeExpr,
    COLON_FullTypeExpr,
}

#[derive(Clone, Copy, Debug, PartialEq, Eq, Structural)]
pub enum QualifiedName {
    DUNDERSTD_DOUBLECOLON_ColonedIdents,
    Identifier_DOUBLECOLON_ColonedIdents,
}

#[derive(Clone, Copy, Debug, PartialEq, Eq, Structural)]
pub enum RenameStmt {
    RENAME_TO_NodeName,
}

#[derive(Clone, Copy, Debug, PartialEq, Eq, Structural)]
pub enum ReservedKeyword {
    ADMINISTER,
    ALTER,
    ANALYZE,
    AND,
    ANYARRAY,
    ANYOBJECT,
    ANYTUPLE,
    ANYTYPE,
    BEGIN,
    BY,
    CASE,
    CHECK,
    COMMIT,
    CONFIGURE,
    CREATE,
    DEALLOCATE,
    DELETE,
    DESCRIBE,
    DETACHED,
    DISCARD,
    DISTINCT,
    DO,
    DROP,
    DUNDERDEFAULT,
    DUNDEREDGEDBSYS,
    DUNDEREDGEDBTPL,
    DUNDERNEW,
    DUNDEROLD,
    DUNDERSOURCE,
    DUNDERSPECIFIED,
    DUNDERSTD,
    DUNDERSUBJECT,
    DUNDERTYPE,
    ELSE,
    END,
    EXISTS,
    EXPLAIN,
    EXTENDING,
    FALSE,
    FETCH,
    FILTER,
    FOR,
    GET,
    GLOBAL,
    GRANT,
    GROUP,
    IF,
    ILIKE,
    IMPORT,
    IN,
    INSERT,
    INTROSPECT,
    IS,
    LIKE,
    LIMIT,
    LISTEN,
    LOAD,
    LOCK,
    MATCH,
    MODULE,
    MOVE,
    NEVER,
    NOT,
    NOTIFY,
    OFFSET,
    ON,
    OPTIONAL,
    OR,
    OVER,
    PARTITION,
    PREPARE,
    RAISE,
    REFRESH,
    REVOKE,
    ROLLBACK,
    SELECT,
    SET,
    SINGLE,
    START,
    TRUE,
    TYPEOF,
    UPDATE,
    VARIADIC,
    WHEN,
    WINDOW,
    WITH,
}

#[derive(Clone, Copy, Debug, PartialEq, Eq, Structural)]
pub enum ResetFieldStmt {
    RESET_DEFAULT,
    RESET_IDENT,
}

#[derive(Clone, Copy, Debug, PartialEq, Eq, Structural)]
pub enum ResetSchemaStmt {
    RESET_SCHEMA_TO_NodeName,
}

#[derive(Clone, Copy, Debug, PartialEq, Eq, Structural)]
pub enum ResetStmt {
    RESET_ALIAS_Identifier,
    RESET_ALIAS_STAR,
    RESET_MODULE,
}

#[derive(Clone, Copy, Debug, PartialEq, Eq, Structural)]
pub enum RewriteDeclarationBlock {
    REWRITE_RewriteKindList_USING_ParenExpr_CreateRewriteSDLCommandsBlock,
}

#[derive(Clone, Copy, Debug, PartialEq, Eq, Structural)]
pub enum RewriteDeclarationShort {
    REWRITE_RewriteKindList_USING_ParenExpr,
}

#[derive(Clone, Copy, Debug, PartialEq, Eq, Structural)]
pub enum RewriteKind {
    INSERT,
    UPDATE,
}

#[derive(Clone, Copy, Debug, PartialEq, Eq, Structural)]
pub enum RewriteKindList {
    RewriteKind,
    RewriteKindList_COMMA_RewriteKind,
}

#[derive(Clone, Copy, Debug, PartialEq, Eq, Structural)]
pub enum RoleStmt {
    AlterRoleStmt,
    CreateRoleStmt,
    DropRoleStmt,
}

#[derive(Clone, Copy, Debug, PartialEq, Eq, Structural)]
pub enum SDLBlockStatement {
    AliasDeclaration,
    AnnotationDeclaration,
    ConstraintDeclaration,
    FunctionDeclaration,
    GlobalDeclaration,
    IndexDeclaration,
    LinkDeclaration,
    ModuleDeclaration,
    ObjectTypeDeclaration,
    PermissionDeclaration,
    PropertyDeclaration,
    ScalarTypeDeclaration,
}

#[derive(Clone, Copy, Debug, PartialEq, Eq, Structural)]
pub enum SDLCommandBlock {
    LBRACE_OptSemicolons_RBRACE,
    LBRACE_OptSemicolons_SDLStatements_RBRACE,
    LBRACE_OptSemicolons_SDLShortStatement_RBRACE,
    LBRACE_OptSemicolons_SDLStatements_OptSemicolons_SDLShortStatement_RBRACE,
    LBRACE_OptSemicolons_SDLStatements_Semicolons_RBRACE,
}

#[derive(Clone, Copy, Debug, PartialEq, Eq, Structural)]
pub enum SDLDocument {
    OptSemicolons,
    OptSemicolons_SDLStatements,
    OptSemicolons_SDLStatements_Semicolons,
    OptSemicolons_SDLShortStatement,
    OptSemicolons_SDLStatements_OptSemicolons_SDLShortStatement,
}

#[derive(Clone, Copy, Debug, PartialEq, Eq, Structural)]
pub enum SDLShortStatement {
    AliasDeclarationShort,
    AnnotationDeclarationShort,
    ConstraintDeclarationShort,
    ExtensionRequirementDeclaration,
    FunctionDeclarationShort,
    FutureRequirementDeclaration,
    GlobalDeclarationShort,
    IndexDeclarationShort,
    LinkDeclarationShort,
    ObjectTypeDeclarationShort,
    PermissionDeclarationShort,
    PropertyDeclarationShort,
    ScalarTypeDeclarationShort,
}

#[derive(Clone, Copy, Debug, PartialEq, Eq, Structural)]
pub enum SDLStatement {
    SDLBlockStatement,
    SDLShortStatement_SEMICOLON,
}

#[derive(Clone, Copy, Debug, PartialEq, Eq, Structural)]
pub enum SDLStatements {
    SDLStatement,
    SDLStatements_OptSemicolons_SDLStatement,
}

#[derive(Clone, Copy, Debug, PartialEq, Eq, Structural)]
pub enum ScalarTypeDeclaration {
    ABSTRACT_SCALAR_TYPE_NodeName_OptExtending_CreateScalarTypeSDLCommandsBlock,
    SCALAR_TYPE_NodeName_OptExtending_CreateScalarTypeSDLCommandsBlock,
}

#[derive(Clone, Copy, Debug, PartialEq, Eq, Structural)]
pub enum ScalarTypeDeclarationShort {
    ABSTRACT_SCALAR_TYPE_NodeName_OptExtending,
    SCALAR_TYPE_NodeName_OptExtending,
}

#[derive(Clone, Copy, Debug, PartialEq, Eq, Structural)]
pub enum SchemaItem {
    SchemaObjectClass_NodeName,
}

#[derive(Clone, Copy, Debug, PartialEq, Eq, Structural)]
pub enum SchemaObjectClass {
    ALIAS,
    ANNOTATION,
    CAST,
    CONSTRAINT,
    FUNCTION,
    LINK,
    MODULE,
    OPERATOR,
    PROPERTY,
    SCALAR_TYPE,
    TYPE,
}

#[derive(Clone, Copy, Debug, PartialEq, Eq, Structural)]
pub enum SelectLimit {
    LimitClause,
    OffsetClause,
    OffsetClause_LimitClause,
}

#[derive(Clone, Copy, Debug, PartialEq, Eq, Structural)]
pub enum Semicolons {
    SEMICOLON,
    Semicolons_SEMICOLON,
}

#[derive(Clone, Copy, Debug, PartialEq, Eq, Structural)]
pub enum SessionStmt {
    ResetStmt,
    SetStmt,
}

#[derive(Clone, Copy, Debug, PartialEq, Eq, Structural)]
pub enum SetLiteral {
    LBRACE_OptExprList_RBRACE,
}

#[derive(Clone, Copy, Debug, PartialEq, Eq, Structural)]
pub enum SetAnnotation {
    ANNOTATION_NodeName_ASSIGN_GenExpr,
}

#[derive(Clone, Copy, Debug, PartialEq, Eq, Structural)]
pub enum SetCardinalityStmt {
    RESET_CARDINALITY_OptAlterUsingClause,
    SET_MULTI,
    SET_SINGLE_OptAlterUsingClause,
}

#[derive(Clone, Copy, Debug, PartialEq, Eq, Structural)]
pub enum SetDelegatedStmt {
    RESET_DELEGATED,
    SET_DELEGATED,
    SET_NOT_DELEGATED,
}

#[derive(Clone, Copy, Debug, PartialEq, Eq, Structural)]
pub enum SetField {
    Identifier_ASSIGN_GenExpr,
}

#[derive(Clone, Copy, Debug, PartialEq, Eq, Structural)]
pub enum SetFieldStmt {
    SET_Identifier_ASSIGN_GenExpr,
}

#[derive(Clone, Copy, Debug, PartialEq, Eq, Structural)]
pub enum SetGlobalTypeStmt {
    RESET_TYPE,
    SETTYPE_FullTypeExpr_OptAlterUsingClause,
    SETTYPE_FullTypeExpr_RESET_TO_DEFAULT,
}

#[derive(Clone, Copy, Debug, PartialEq, Eq, Structural)]
pub enum SetPointerTypeStmt {
    RESET_TYPE,
    SETTYPE_FullTypeExpr_OptAlterUsingClause,
}

#[derive(Clone, Copy, Debug, PartialEq, Eq, Structural)]
pub enum SetRequiredInCreateStmt {
    SET_REQUIRED_OptAlterUsingClause,
}

#[derive(Clone, Copy, Debug, PartialEq, Eq, Structural)]
pub enum SetRequiredStmt {
    DROP_REQUIRED,
    RESET_OPTIONALITY,
    SET_OPTIONAL,
    SET_REQUIRED_OptAlterUsingClause,
}

#[derive(Clone, Copy, Debug, PartialEq, Eq, Structural)]
pub enum SetStmt {
    SET_ALIAS_Identifier_AS_MODULE_ModuleName,
    SET_MODULE_ModuleName,
}

#[derive(Clone, Copy, Debug, PartialEq, Eq, Structural)]
pub enum Shape {
    LBRACE_RBRACE,
    LBRACE_ShapeElementList_RBRACE,
}

#[derive(Clone, Copy, Debug, PartialEq, Eq, Structural)]
pub enum ShapeElement {
    ComputableShapePointer,
    ShapePointer_OptAnySubShape_OptFilterClause_OptSortClause_OptSelectLimit,
}

#[derive(Clone, Copy, Debug, PartialEq, Eq, Structural)]
pub enum ShapeElementList {
    ShapeElementListInner,
    ShapeElementListInner_COMMA,
}

#[derive(Clone, Copy, Debug, PartialEq, Eq, Structural)]
pub enum ShapeElementListInner {
    ShapeElement,
    ShapeElementListInner_COMMA_ShapeElement,
}

#[derive(Clone, Copy, Debug, PartialEq, Eq, Structural)]
pub enum ShapePath {
    AT_PathNodeName,
    PathStepName_OptTypeIntersection,
    Splat,
    TypeIntersection_DOT_PathStepName_OptTypeIntersection,
}

#[derive(Clone, Copy, Debug, PartialEq, Eq, Structural)]
pub enum ShapePointer {
    ShapePath,
}

#[derive(Clone, Copy, Debug, PartialEq, Eq, Structural)]
pub enum ShortExtending {
    EXTENDING_ShortTypeNameList,
}

#[derive(Clone, Copy, Debug, PartialEq, Eq, Structural)]
pub enum ShortNodeName {
    Identifier,
}

#[derive(Clone, Copy, Debug, PartialEq, Eq, Structural)]
pub enum ShortTypeName {
    ShortNodeName,
}

#[derive(Clone, Copy, Debug, PartialEq, Eq, Structural)]
pub enum ShortTypeNameList {
    ShortTypeName,
    ShortTypeNameList_COMMA_ShortTypeName,
}

#[derive(Clone, Copy, Debug, PartialEq, Eq, Structural)]
pub enum SimpleDelete {
    DELETE_Expr_OptFilterClause_OptSortClause_OptSelectLimit,
}

#[derive(Clone, Copy, Debug, PartialEq, Eq, Structural)]
pub enum SimpleFor {
    FOR_OptionalOptional_Identifier_IN_AtomicExpr_UNION_Expr,
    FOR_OptionalOptional_Identifier_IN_AtomicExpr_ExprStmtSimple,
}

#[derive(Clone, Copy, Debug, PartialEq, Eq, Structural)]
pub enum SimpleGroup {
    GROUP_OptionallyAliasedExpr_OptUsingClause_ByClause,
}

#[derive(Clone, Copy, Debug, PartialEq, Eq, Structural)]
pub enum SimpleInsert {
    INSERT_Expr_OptUnlessConflictClause,
}

#[derive(Clone, Copy, Debug, PartialEq, Eq, Structural)]
pub enum SimpleSelect {
    SELECT_OptionallyAliasedExpr_OptFilterClause_OptSortClause_OptSelectLimit,
}

#[derive(Clone, Copy, Debug, PartialEq, Eq, Structural)]
pub enum SimpleShapePath {
    AT_PathNodeName,
    PathStepName,
}

#[derive(Clone, Copy, Debug, PartialEq, Eq, Structural)]
pub enum SimpleShapePointer {
    SimpleShapePath,
}

#[derive(Clone, Copy, Debug, PartialEq, Eq, Structural)]
pub enum SimpleTypeName {
    ANYOBJECT,
    ANYTUPLE,
    ANYTYPE,
    PtrNodeName,
}

#[derive(Clone, Copy, Debug, PartialEq, Eq, Structural)]
pub enum SimpleTypeNameList {
    SimpleTypeName,
    SimpleTypeNameList_COMMA_SimpleTypeName,
}

#[derive(Clone, Copy, Debug, PartialEq, Eq, Structural)]
pub enum SimpleUpdate {
    UPDATE_Expr_OptFilterClause_SET_Shape,
}

#[derive(Clone, Copy, Debug, PartialEq, Eq, Structural)]
pub enum SingleStatement {
    ConfigStmt,
    DDLStmt,
    IfThenElseExpr,
    SessionStmt,
    Stmt,
}

#[derive(Clone, Copy, Debug, PartialEq, Eq, Structural)]
pub enum SortClause {
    ORDERBY_OrderbyList,
}

#[derive(Clone, Copy, Debug, PartialEq, Eq, Structural)]
pub enum Splat {
    DOUBLESTAR,
    ParenTypeExpr_DOT_DOUBLESTAR,
    ParenTypeExpr_DOT_STAR,
    ParenTypeExpr_TypeIntersection_DOT_DOUBLESTAR,
    ParenTypeExpr_TypeIntersection_DOT_STAR,
    PathStepName_DOT_DOUBLESTAR,
    PathStepName_DOT_STAR,
    PathStepName_TypeIntersection_DOT_DOUBLESTAR,
    PathStepName_TypeIntersection_DOT_STAR,
    PtrQualifiedNodeName_DOT_DOUBLESTAR,
    PtrQualifiedNodeName_DOT_STAR,
    PtrQualifiedNodeName_TypeIntersection_DOT_DOUBLESTAR,
    PtrQualifiedNodeName_TypeIntersection_DOT_STAR,
    STAR,
    TypeIntersection_DOT_DOUBLESTAR,
    TypeIntersection_DOT_STAR,
}

#[derive(Clone, Copy, Debug, PartialEq, Eq, Structural)]
pub enum StartMigrationStmt {
    START_MIGRATION_TO_SDLCommandBlock,
    START_MIGRATION_REWRITE,
    START_MIGRATION_TO_COMMITTED_SCHEMA,
}

#[derive(Clone, Copy, Debug, PartialEq, Eq, Structural)]
pub enum StatementBlock {
    SingleStatement,
    StatementBlock_Semicolons_SingleStatement,
}

#[derive(Clone, Copy, Debug, PartialEq, Eq, Structural)]
pub enum Stmt {
    AdministerStmt,
    AnalyzeStmt,
    DescribeStmt,
    ExprStmt,
    TransactionStmt,
}

#[derive(Clone, Copy, Debug, PartialEq, Eq, Structural)]
pub enum StringInterpolation {
    STRINTERPSTART_StringInterpolationTail,
}

#[derive(Clone, Copy, Debug, PartialEq, Eq, Structural)]
pub enum StringInterpolationTail {
    Expr_STRINTERPCONT_StringInterpolationTail,
    Expr_STRINTERPEND,
}

#[derive(Clone, Copy, Debug, PartialEq, Eq, Structural)]
pub enum Subtype {
    BaseNumberConstant,
    BaseStringConstant,
    FullTypeExpr,
    Identifier_COLON_FullTypeExpr,
}

#[derive(Clone, Copy, Debug, PartialEq, Eq, Structural)]
pub enum SubtypeList {
    SubtypeListInner,
    SubtypeListInner_COMMA,
}

#[derive(Clone, Copy, Debug, PartialEq, Eq, Structural)]
pub enum SubtypeListInner {
    Subtype,
    SubtypeListInner_COMMA_Subtype,
}

#[derive(Clone, Copy, Debug, PartialEq, Eq, Structural)]
pub enum TransactionMode {
    DEFERRABLE,
    ISOLATION_REPEATABLE_READ,
    ISOLATION_SERIALIZABLE,
    NOT_DEFERRABLE,
    READ_ONLY,
    READ_WRITE,
}

#[derive(Clone, Copy, Debug, PartialEq, Eq, Structural)]
pub enum TransactionModeList {
    TransactionMode,
    TransactionModeList_COMMA_TransactionMode,
}

#[derive(Clone, Copy, Debug, PartialEq, Eq, Structural)]
pub enum TransactionStmt {
    COMMIT,
    DECLARE_SAVEPOINT_Identifier,
    RELEASE_SAVEPOINT_Identifier,
    ROLLBACK,
    ROLLBACK_TO_SAVEPOINT_Identifier,
    START_TRANSACTION_OptTransactionModeList,
}

#[derive(Clone, Copy, Debug, PartialEq, Eq, Structural)]
pub enum TriggerDeclarationBlock {
    TRIGGER_NodeName_TriggerTiming_TriggerKindList_FOR_TriggerScope_OptWhenBlock_DO_ParenExpr_CreateTriggerSDLCommandsBlock,
}

#[derive(Clone, Copy, Debug, PartialEq, Eq, Structural)]
pub enum TriggerDeclarationShort {
    TRIGGER_NodeName_TriggerTiming_TriggerKindList_FOR_TriggerScope_OptWhenBlock_DO_ParenExpr,
}

#[derive(Clone, Copy, Debug, PartialEq, Eq, Structural)]
pub enum TriggerKind {
    DELETE,
    INSERT,
    UPDATE,
}

#[derive(Clone, Copy, Debug, PartialEq, Eq, Structural)]
pub enum TriggerKindList {
    TriggerKind,
    TriggerKindList_COMMA_TriggerKind,
}

#[derive(Clone, Copy, Debug, PartialEq, Eq, Structural)]
pub enum TriggerScope {
    ALL,
    EACH,
}

#[derive(Clone, Copy, Debug, PartialEq, Eq, Structural)]
pub enum TriggerTiming {
    AFTER,
    AFTER_COMMIT_OF,
}

#[derive(Clone, Copy, Debug, PartialEq, Eq, Structural)]
pub enum Tuple {
    LPAREN_GenExpr_COMMA_OptExprList_RPAREN,
    LPAREN_RPAREN,
}

#[derive(Clone, Copy, Debug, PartialEq, Eq, Structural)]
pub enum TypeExpr {
    NontrivialTypeExpr,
    SimpleTypeName,
}

#[derive(Clone, Copy, Debug, PartialEq, Eq, Structural)]
pub enum TypeIntersection {
    LBRACKET_IS_FullTypeExpr_RBRACKET,
}

#[derive(Clone, Copy, Debug, PartialEq, Eq, Structural)]
pub enum TypeName {
    CollectionTypeName,
    SimpleTypeName,
}

#[derive(Clone, Copy, Debug, PartialEq, Eq, Structural)]
pub enum TypeNameList {
    TypeName,
    TypeNameList_COMMA_TypeName,
}

#[derive(Clone, Copy, Debug, PartialEq, Eq, Structural)]
pub enum UnlessConflictCause {
    UNLESS_CONFLICT_UnlessConflictSpecifier,
}

#[derive(Clone, Copy, Debug, PartialEq, Eq, Structural)]
pub enum UnlessConflictSpecifier {
    ON_Expr,
    ON_Expr_ELSE_Expr,
    epsilon,
}

#[derive(Clone, Copy, Debug, PartialEq, Eq, Structural)]
pub enum UnqualifiedPointerName {
    PointerName,
}

#[derive(Clone, Copy, Debug, PartialEq, Eq, Structural)]
pub enum UnreservedKeyword {
    ABORT,
    ABSTRACT,
    ACCESS,
    AFTER,
    ALIAS,
    ALL,
    ALLOW,
    ANNOTATION,
    APPLIED,
    AS,
    ASC,
    ASSIGNMENT,
    BEFORE,
    BLOBAL,
    BRANCH,
    CARDINALITY,
    CAST,
    COMMITTED,
    CONFIG,
    CONFLICT,
    CONSTRAINT,
    CUBE,
    CURRENT,
    DATA,
    DATABASE,
    DDL,
    DECLARE,
    DEFAULT,
    DEFERRABLE,
    DEFERRED,
    DELEGATED,
    DENY,
    DESC,
    EACH,
    EMPTY,
    EXPRESSION,
    EXTENSION,
    FINAL,
    FIRST,
    FORCE,
    FROM,
    FUNCTION,
    FUTURE,
    IMPLICIT,
    INDEX,
    INFIX,
    INHERITABLE,
    INSTANCE,
    INTO,
    ISOLATION,
    JSON,
    LAST,
    LINK,
    MIGRATION,
    MULTI,
    NAMED,
    OBJECT,
    OF,
    ONLY,
    ONTO,
    OPERATOR,
    OPTIONALITY,
    ORDER,
    ORPHAN,
    OVERLOADED,
    OWNED,
    PACKAGE,
    PERMISSION,
    POLICY,
    POPULATE,
    POSTFIX,
    PREFIX,
    PROPERTY,
    PROPOSED,
    PSEUDO,
    READ,
    REJECT,
    RELEASE,
    RENAME,
    REPEATABLE,
    REQUIRED,
    RESET,
    RESTRICT,
    REWRITE,
    ROLE,
    ROLES,
    ROLLUP,
    SAVEPOINT,
    SCALAR,
    SCHEMA,
    SDL,
    SERIALIZABLE,
    SESSION,
    SOURCE,
    SUPERUSER,
    SYSTEM,
    TARGET,
    TEMPLATE,
    TERNARY,
    TEXT,
    THEN,
    TO,
    TRANSACTION,
    TRIGGER,
    TYPE,
    UNLESS,
    USING,
    VERBOSE,
    VERSION,
    VIEW,
    WRITE,
}

#[derive(Clone, Copy, Debug, PartialEq, Eq, Structural)]
pub enum Using {
    USING_ParenExpr,
}

#[derive(Clone, Copy, Debug, PartialEq, Eq, Structural)]
pub enum UsingClause {
    USING_AliasedExprList,
}

#[derive(Clone, Copy, Debug, PartialEq, Eq, Structural)]
pub enum UsingStmt {
    RESET_EXPRESSION,
    USING_ParenExpr,
}

#[derive(Clone, Copy, Debug, PartialEq, Eq, Structural)]
pub enum WithBlock {
    WITH_WithDeclList,
}

#[derive(Clone, Copy, Debug, PartialEq, Eq, Structural)]
pub enum WithDDLStmt {
    InnerDDLStmt,
}

#[derive(Clone, Copy, Debug, PartialEq, Eq, Structural)]
pub enum WithDecl {
    AliasDecl,
}

#[derive(Clone, Copy, Debug, PartialEq, Eq, Structural)]
pub enum WithDeclList {
    WithDeclListInner,
    WithDeclListInner_COMMA,
}

#[derive(Clone, Copy, Debug, PartialEq, Eq, Structural)]
pub enum WithDeclListInner {
    WithDecl,
    WithDeclListInner_COMMA_WithDecl,
}

} // verus!
